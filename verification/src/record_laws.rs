//! What the state keeps of requests, and what is shown of it, field by field.

use vstd::prelude::*;

use crate::config::AppConfig;
use crate::error::ApiErrorView;
use crate::listing::{in_order, list_keys, list_times, lists_keys};
use crate::metrics::with_count;
use crate::reports::{lemma_filter_push, paid_by, payments_of, total_cents};
use crate::state::{has_payment, initial_prices, source_mode, status_label, AppStateView};
use crate::types::{
    Campaign, CreateCampaignRequest, CreateUserRequest, CreatorMetricEventRequest,
    PaymentRecordView, PaymentSource, PaymentStatus, TaskCompletionRequest, TaskCompletionView,
    Timestamp, UserProfile, X402ScanSettlementRequest,
};

verus! {

/// A new profile holds what its request holds, under its identifier, and stands beside the others.
pub proof fn law_profile_is_kept_as_asked(
    state: AppStateView,
    request: CreateUserRequest,
    id: u128,
    now: Timestamp,
)
    ensures
        ({
            let after = state.with_user(request.profile(id, now));
            let user = after.users[id];
            &&& after.users.dom() == state.users.dom().insert(id)
            &&& user.id == id
            &&& user.email == request.email@
            &&& user.region == request.region@
            &&& user.roles.len() == request.roles@.len()
            &&& forall|i: int|
                0 <= i < user.roles.len() ==> #[trigger] user.roles[i] == request.roles@[i]@
            &&& user.tools_used.len() == request.tools_used@.len()
            &&& forall|i: int|
                0 <= i < user.tools_used.len() ==> #[trigger] user.tools_used[i]
                    == request.tools_used@[i]@
            &&& user.attributes == request.attributes@
            &&& user.created_at == now
            &&& forall|other: u128|
                other != id ==> #[trigger] after.users[other] == state.users[other]
            &&& after.campaigns == state.campaigns
            &&& after.task_completions == state.task_completions
            &&& after.payments == state.payments
            &&& after.creator_events == state.creator_events
            &&& after.service_prices == state.service_prices
            &&& after.metrics == state.metrics
            &&& after.config == state.config
        }),
{
}

/// A new campaign holds what its request holds, is active and has its whole budget left, and
/// stands beside the others.
pub proof fn law_campaign_is_kept_as_asked(
    state: AppStateView,
    request: CreateCampaignRequest,
    id: u128,
    now: Timestamp,
)
    ensures
        ({
            let after = state.with_campaign(request.campaign(id, now));
            let campaign = after.campaigns[id];
            &&& after.campaigns.dom() == state.campaigns.dom().insert(id)
            &&& campaign.id == id
            &&& campaign.name == request.name@
            &&& campaign.sponsor == request.sponsor@
            &&& campaign.target_roles.len() == request.target_roles@.len()
            &&& forall|i: int|
                0 <= i < campaign.target_roles.len() ==> #[trigger] campaign.target_roles[i]
                    == request.target_roles@[i]@
            &&& campaign.target_tools.len() == request.target_tools@.len()
            &&& forall|i: int|
                0 <= i < campaign.target_tools.len() ==> #[trigger] campaign.target_tools[i]
                    == request.target_tools@[i]@
            &&& campaign.required_task == request.required_task@
            &&& campaign.subsidy_per_call_cents == request.subsidy_per_call_cents
            &&& campaign.budget_remaining_cents == request.budget_cents
            &&& campaign.active
            &&& campaign.created_at == now
            &&& forall|other: u128|
                other != id ==> #[trigger] after.campaigns[other] == state.campaigns[other]
            &&& after.users == state.users
            &&& after.task_completions == state.task_completions
            &&& after.payments == state.payments
            &&& after.creator_events == state.creator_events
            &&& after.service_prices == state.service_prices
            &&& after.metrics == state.metrics
            &&& after.config == state.config
        }),
{
}

/// A report of a completed task is taken where its campaign and its user exist, and says which of
/// them is missing otherwise. What is taken holds what the report holds.
pub proof fn law_task_is_kept_as_reported(
    state: AppStateView,
    request: TaskCompletionRequest,
    id: u128,
    now: Timestamp,
)
    ensures
        match state.task_outcome(request, id, now) {
            Ok(completion) => {
                &&& state.after_task(request, id, now) == state.with_completion(completion)
                &&& state.campaigns.contains_key(request.campaign_id)
                &&& state.users.contains_key(request.user_id)
                &&& completion.id == id
                &&& completion.campaign_id == request.campaign_id
                &&& completion.user_id == request.user_id
                &&& completion.task_name == request.task_name@
                &&& match request.details {
                    Some(details) => completion.details == Some(details@),
                    None => completion.details is None,
                }
                &&& completion.created_at == now
            },
            Err(ApiErrorView::NotFound { message }) => {
                &&& state.after_task(request, id, now) == state
                &&& if state.campaigns.contains_key(request.campaign_id) {
                    !state.users.contains_key(request.user_id) && message == "user not found"@
                } else {
                    message == "campaign not found"@
                }
            },
            Err(_) => false,
        },
{
}

/// The server starts with nobody and nothing, and with the settings that it was given.
pub proof fn law_server_starts_empty(config: AppConfig, id: u128)
    ensures
        ({
            let start = AppStateView::initial(config);
            &&& !start.users.contains_key(id)
            &&& !start.campaigns.contains_key(id)
            &&& start.task_completions.len() == 0
            &&& start.payments.len() == 0
            &&& start.creator_events.len() == 0
            &&& start.service_prices == initial_prices()
            &&& start.metrics.sponsor_spend_cents == 0
            &&& start.config == config
            &&& start.consistent()
        }),
{
}

/// A completion that is kept comes behind the others, and changes nothing else.
pub proof fn law_completion_is_added(state: AppStateView, completion: TaskCompletionView)
    ensures
        ({
            let after = state.with_completion(completion);
            &&& after.task_completions.len() == state.task_completions.len() + 1
            &&& after.task_completions.last() == completion
            &&& after.task_completions.drop_last() == state.task_completions
            &&& after.users == state.users
            &&& after.campaigns == state.campaigns
            &&& after.payments == state.payments
            &&& after.creator_events == state.creator_events
            &&& after.service_prices == state.service_prices
            &&& after.metrics == state.metrics
            &&& after.config == state.config
        }),
{
    assert(state.with_completion(completion).task_completions.drop_last()
        =~= state.task_completions);
}

/// A service costs what the prices say, and five cents where they do not name it. The server
/// starts with the prices of four services.
pub proof fn law_price_of_a_service(state: AppStateView, service: Seq<char>)
    ensures
        state.service_prices.contains_key(service) ==> state.price(service)
            == state.service_prices[service],
        !state.service_prices.contains_key(service) ==> state.price(service) == 5,
        initial_prices().contains_key(service) <==> service == "scraping"@ || service == "design"@
            || service == "storage"@ || service == "data-tooling"@,
        service == "scraping"@ ==> initial_prices()[service] == 5,
        service == "design"@ ==> initial_prices()[service] == 8,
        service == "storage"@ ==> initial_prices()[service] == 3,
        service == "data-tooling"@ ==> initial_prices()[service] == 4,
{
    reveal_strlit("scraping");
    reveal_strlit("design");
    reveal_strlit("storage");
    reveal_strlit("data-tooling");
    assert("scraping"@.len() == 8);
    assert("design"@.len() == 6);
    assert("storage"@.len() == 7);
    assert("data-tooling"@.len() == 12);
}

/// A settlement that is reported is kept with what the report holds, and is counted under its mode
/// and its status.
pub proof fn law_settlement_is_kept_as_reported(
    state: AppStateView,
    request: X402ScanSettlementRequest,
    now: Timestamp,
)
    ensures
        ({
            let record = request.record(now);
            &&& record.tx_hash == request.tx_hash@
            &&& record.campaign_id == request.campaign_id
            &&& record.service == request.service@
            &&& record.amount_cents == request.amount_cents
            &&& record.payer == request.payer@
            &&& record.source == request.source
            &&& record.status == request.status
            &&& record.created_at == now
        }),
        state.after_settlement(request, now).payments == state.with_payment(
            request.record(now),
        ).payments,
        state.after_settlement(request, now).metrics.payment_events == with_count(
            state.metrics.payment_events,
            seq![
                match request.source {
                    PaymentSource::User => "user_direct"@,
                    PaymentSource::Sponsor => "sponsored"@,
                },
                match request.status {
                    PaymentStatus::Settled => "settled"@,
                    PaymentStatus::Failed => "failed"@,
                },
            ],
        ),
        ({
            let after = state.after_settlement(request, now);
            &&& after.metrics.http_requests == state.metrics.http_requests
            &&& after.metrics.creator_events == state.metrics.creator_events
            &&& after.metrics.sponsor_spend_cents == state.metrics.sponsor_spend_cents
            &&& after.users == state.users
            &&& after.campaigns == state.campaigns
            &&& after.task_completions == state.task_completions
            &&& after.creator_events == state.creator_events
            &&& after.service_prices == state.service_prices
            &&& after.config == state.config
        }),
        request.source is User ==> source_mode(request.source) == "user_direct"@,
        request.source is Sponsor ==> source_mode(request.source) == "sponsored"@,
        request.status is Settled ==> status_label(request.status) == "settled"@,
        request.status is Failed ==> status_label(request.status) == "failed"@,
{
}

/// After a payment was recorded, it is the one record of its transaction; each other transaction
/// has the record that it had, and nothing else changes.
pub proof fn law_payment_is_recorded(state: AppStateView, record: PaymentRecordView)
    requires
        state.consistent(),
    ensures
        ({
            let after = state.with_payment(record);
            &&& exists|i: int|
                0 <= i < after.payments.len() && #[trigger] after.payments[i] == record
            &&& forall|i: int|
                0 <= i < after.payments.len() && (#[trigger] after.payments[i]).tx_hash
                    == record.tx_hash ==> after.payments[i] == record
            &&& forall|i: int|
                0 <= i < state.payments.len() && (#[trigger] state.payments[i]).tx_hash
                    != record.tx_hash ==> i < after.payments.len() && after.payments[i]
                    == state.payments[i]
            &&& forall|i: int|
                0 <= i < after.payments.len() && (#[trigger] after.payments[i]).tx_hash
                    != record.tx_hash ==> i < state.payments.len() && after.payments[i]
                    == state.payments[i]
            &&& after.payments.len() == state.payments.len() || after.payments.len()
                == state.payments.len() + 1
            &&& after.users == state.users
            &&& after.campaigns == state.campaigns
            &&& after.task_completions == state.task_completions
            &&& after.creator_events == state.creator_events
            &&& after.service_prices == state.service_prices
            &&& after.metrics == state.metrics
            &&& after.config == state.config
        }),
{
    let after = state.with_payment(record).payments;
    if has_payment(state.payments, record.tx_hash) {
        let i = choose|i: int|
            0 <= i < state.payments.len() && #[trigger] state.payments[i].tx_hash
                == record.tx_hash;
        assert(after[i] == record);
        assert forall|j: int|
            0 <= j < after.len() && (#[trigger] after[j]).tx_hash == record.tx_hash implies after[j]
            == record by {
            if j != i {
                assert(after[j] == state.payments[j]);
                if j < i {
                    assert(state.payments[j].tx_hash != state.payments[i].tx_hash);
                } else {
                    assert(state.payments[i].tx_hash != state.payments[j].tx_hash);
                }
            }
        }
    } else {
        assert(after[state.payments.len() as int] == record);
        assert forall|j: int|
            0 <= j < after.len() && (#[trigger] after[j]).tx_hash == record.tx_hash implies after[j]
            == record by {
            if j < state.payments.len() {
                assert(state.payments[j].tx_hash == record.tx_hash);
            }
        }
    }
}

/// A creator event is kept with what its request holds, behind the events before it, and is counted
/// under its skill, its platform and its type.
pub proof fn law_event_is_kept_as_reported(
    state: AppStateView,
    request: CreatorMetricEventRequest,
    id: u128,
    now: Timestamp,
)
    ensures
        ({
            let after = state.after_creator_event(request, id, now);
            let event = after.creator_events.last();
            &&& after.creator_events.len() == state.creator_events.len() + 1
            &&& after.creator_events.drop_last() == state.creator_events
            &&& event.id == id
            &&& event.skill_name == request.skill_name@
            &&& event.platform == request.platform@
            &&& event.event_type == request.event_type@
            &&& event.duration_ms == request.duration_ms
            &&& event.success == request.success
            &&& event.created_at == now
            &&& after.users == state.users
            &&& after.campaigns == state.campaigns
            &&& after.task_completions == state.task_completions
            &&& after.payments == state.payments
            &&& after.service_prices == state.service_prices
            &&& after.metrics.creator_events == with_count(
                state.metrics.creator_events,
                seq![request.skill_name@, request.platform@, request.event_type@],
            )
            &&& after.metrics.http_requests == state.metrics.http_requests
            &&& after.metrics.payment_events == state.metrics.payment_events
            &&& after.metrics.sponsor_spend_cents == state.metrics.sponsor_spend_cents
            &&& after.config == state.config
        }),
{
    assert(state.after_creator_event(request, id, now).creator_events.drop_last()
        =~= state.creator_events);
}

/// A filter keeps as many elements of a list as there are places that hold one to keep.
pub(crate) proof fn lemma_filter_counts<T>(list: Seq<T>, keep: spec_fn(T) -> bool)
    ensures
        Set::new(|i: int| 0 <= i < list.len() && keep(list[i])).finite(),
        list.filter(keep).len() == Set::new(|i: int| 0 <= i < list.len() && keep(list[i])).len(),
    decreases list.len(),
{
    reveal(Seq::filter);
    let places = Set::new(|i: int| 0 <= i < list.len() && keep(list[i]));
    if list.len() == 0 {
        assert(places =~= Set::empty());
    } else {
        let fewer = list.drop_last();
        let before = Set::new(|i: int| 0 <= i < fewer.len() && keep(fewer[i]));
        lemma_filter_counts(fewer, keep);
        if keep(list.last()) {
            assert(places =~= before.insert(list.len() - 1));
        } else {
            assert(places =~= before);
        }
    }
}

/// A dashboard shows a campaign that exists as it is. Its tasks are the completions that name it,
/// and its sponsored calls are the settled payments by a sponsor that name it.
pub proof fn law_dashboard_counts_its_own(state: AppStateView, campaign_id: u128)
    ensures
        match state.dashboard(campaign_id) {
            Ok(shown) => {
                &&& state.campaigns.contains_key(campaign_id)
                &&& shown.campaign == state.campaigns[campaign_id]
                &&& shown.remaining_budget_cents
                    == state.campaigns[campaign_id].budget_remaining_cents
                &&& shown.tasks_completed == Set::new(
                    |i: int|
                        0 <= i < state.task_completions.len()
                            && state.task_completions[i].campaign_id == campaign_id,
                ).len()
                &&& shown.sponsored_calls == Set::new(
                    |i: int|
                        0 <= i < state.payments.len() && state.payments[i].campaign_id == Some(
                            campaign_id,
                        ) && state.payments[i].source is Sponsor
                            && state.payments[i].status is Settled,
                ).len()
            },
            Err(ApiErrorView::NotFound { message }) => {
                &&& !state.campaigns.contains_key(campaign_id)
                &&& message == "campaign not found"@
            },
            Err(_) => false,
        },
{
    let done = |completion: TaskCompletionView| completion.campaign_id == campaign_id;
    lemma_filter_counts(state.task_completions, done);
    assert(Set::new(
        |i: int|
            0 <= i < state.task_completions.len() && state.task_completions[i].campaign_id
                == campaign_id,
    ) =~= Set::new(
        |i: int| 0 <= i < state.task_completions.len() && done(state.task_completions[i]),
    ));
    let paid = |record: PaymentRecordView| paid_by(record, campaign_id);
    lemma_filter_counts(state.payments, paid);
    assert(Set::new(
        |i: int|
            0 <= i < state.payments.len() && state.payments[i].campaign_id == Some(campaign_id)
                && state.payments[i].source is Sponsor && state.payments[i].status is Settled,
    ) =~= Set::new(|i: int| 0 <= i < state.payments.len() && paid(state.payments[i])));
}

/// To complete a task adds one to the tasks on the dashboard of its own campaign, and changes
/// nothing else on any dashboard.
pub proof fn law_task_shows_on_its_own_dashboard(
    state: AppStateView,
    completion: TaskCompletionView,
    campaign_id: u128,
)
    requires
        state.campaigns.contains_key(campaign_id),
    ensures
        match (
            state.dashboard(campaign_id),
            state.with_completion(completion).dashboard(campaign_id),
        ) {
            (Ok(before), Ok(after)) => {
                &&& completion.campaign_id == campaign_id ==> after.tasks_completed
                    == before.tasks_completed + 1
                &&& completion.campaign_id != campaign_id ==> after.tasks_completed
                    == before.tasks_completed
                &&& after.campaign == before.campaign
                &&& after.sponsored_calls == before.sponsored_calls
                &&& after.spend_cents == before.spend_cents
                &&& after.remaining_budget_cents == before.remaining_budget_cents
            },
            _ => false,
        },
{
    lemma_filter_push(
        state.task_completions,
        completion,
        |c: TaskCompletionView| c.campaign_id == campaign_id,
    );
}

/// The dashboard of a new campaign shows no task, no call and no spending, and its whole budget.
pub proof fn law_new_dashboard_is_empty(
    state: AppStateView,
    request: CreateCampaignRequest,
    id: u128,
    now: Timestamp,
)
    requires
        state.consistent(),
        !state.campaigns.contains_key(id),
        forall|i: int|
            0 <= i < state.payments.len() ==> (#[trigger] state.payments[i]).campaign_id != Some(
                id,
            ),
    ensures
        match state.with_campaign(request.campaign(id, now)).dashboard(id) {
            Ok(shown) => {
                &&& shown.tasks_completed == 0
                &&& shown.sponsored_calls == 0
                &&& shown.spend_cents == 0
                &&& shown.remaining_budget_cents == request.budget_cents
            },
            Err(_) => false,
        },
{
    let created = state.with_campaign(request.campaign(id, now));
    law_dashboard_counts_its_own(created, id);
    assert(Set::new(
        |i: int|
            0 <= i < created.task_completions.len() && created.task_completions[i].campaign_id
                == id,
    ) =~= Set::empty());
    assert(Set::new(
        |i: int|
            0 <= i < created.payments.len() && created.payments[i].campaign_id == Some(id)
                && created.payments[i].source is Sponsor && created.payments[i].status is Settled,
    ) =~= Set::empty());
}

/// What one record replaced by another does to what a campaign has spent.
proof fn lemma_spend_replaced(
    payments: Seq<PaymentRecordView>,
    i: int,
    record: PaymentRecordView,
    campaign_id: u128,
)
    requires
        0 <= i < payments.len(),
    ensures
        total_cents(payments_of(payments.update(i, record), campaign_id)) + if paid_by(
            payments[i],
            campaign_id,
        ) {
            payments[i].amount_cents as nat
        } else {
            0
        } == total_cents(payments_of(payments, campaign_id)) + if paid_by(record, campaign_id) {
            record.amount_cents as nat
        } else {
            0
        },
    decreases payments.len(),
{
    let after = payments.update(i, record);
    lemma_spend_of_last(payments, campaign_id);
    lemma_spend_of_last(after, campaign_id);
    if i == payments.len() - 1 {
        assert(after.drop_last() =~= payments.drop_last());
    } else {
        assert(after.drop_last() =~= payments.drop_last().update(i, record));
        lemma_spend_replaced(payments.drop_last(), i, record, campaign_id);
    }
}

/// What the last record adds to what a campaign has spent.
proof fn lemma_spend_of_last(payments: Seq<PaymentRecordView>, campaign_id: u128)
    requires
        payments.len() > 0,
    ensures
        total_cents(payments_of(payments, campaign_id)) == total_cents(
            payments_of(payments.drop_last(), campaign_id),
        ) + if paid_by(payments.last(), campaign_id) {
            payments.last().amount_cents as nat
        } else {
            0
        },
{
    let fewer = payments.drop_last();
    let own = payments_of(fewer, campaign_id);
    assert(payments =~= fewer.push(payments.last()));
    lemma_filter_push(fewer, payments.last(), |r: PaymentRecordView| paid_by(r, campaign_id));
    assert(own.push(payments.last()).drop_last() =~= own);
}

/// A payment of a new transaction adds its amount to what the dashboard of a campaign shows as
/// spent, and one to its calls, where a sponsor settled it for that campaign. Any other payment
/// changes nothing on the dashboard.
pub proof fn law_payment_shows_on_its_own_dashboard(
    state: AppStateView,
    record: PaymentRecordView,
    campaign_id: u128,
)
    requires
        state.campaigns.contains_key(campaign_id),
        forall|i: int|
            0 <= i < state.payments.len() ==> (#[trigger] state.payments[i]).tx_hash
                != record.tx_hash,
    ensures
        match (state.dashboard(campaign_id), state.with_payment(record).dashboard(campaign_id)) {
            (Ok(before), Ok(after)) => {
                &&& if record.campaign_id == Some(campaign_id) && record.source is Sponsor
                    && record.status is Settled {
                    &&& after.spend_cents == before.spend_cents + record.amount_cents
                    &&& after.sponsored_calls == before.sponsored_calls + 1
                } else {
                    &&& after.spend_cents == before.spend_cents
                    &&& after.sponsored_calls == before.sponsored_calls
                }
                &&& after.campaign == before.campaign
                &&& after.tasks_completed == before.tasks_completed
                &&& after.remaining_budget_cents == before.remaining_budget_cents
            },
            _ => false,
        },
{
    assert(!has_payment(state.payments, record.tx_hash));
    lemma_filter_push(state.payments, record, |r: PaymentRecordView| paid_by(r, campaign_id));
    lemma_spend_of_last(state.payments.push(record), campaign_id);
    assert(state.payments.push(record).drop_last() =~= state.payments);
}

/// A payment that takes the place of an earlier one of its transaction brings its own amount to
/// what is shown as spent, and takes away the earlier one's.
pub proof fn law_replaced_payment_is_taken_off_the_dashboard(
    state: AppStateView,
    record: PaymentRecordView,
    i: int,
    campaign_id: u128,
)
    requires
        state.consistent(),
        state.campaigns.contains_key(campaign_id),
        0 <= i < state.payments.len(),
        state.payments[i].tx_hash == record.tx_hash,
    ensures
        match (state.dashboard(campaign_id), state.with_payment(record).dashboard(campaign_id)) {
            (Ok(before), Ok(after)) => {
                let earlier = state.payments[i];
                let gone = if earlier.campaign_id == Some(campaign_id) && earlier.source is Sponsor
                    && earlier.status is Settled {
                    earlier.amount_cents as int
                } else {
                    0
                };
                let come = if record.campaign_id == Some(campaign_id) && record.source is Sponsor
                    && record.status is Settled {
                    record.amount_cents as int
                } else {
                    0
                };
                after.spend_cents == before.spend_cents - gone + come
            },
            _ => false,
        },
{
    let place = choose|k: int|
        0 <= k < state.payments.len() && #[trigger] state.payments[k].tx_hash == record.tx_hash;
    assert(has_payment(state.payments, record.tx_hash));
    assert(place == i) by {
        if place < i {
            assert(state.payments[place].tx_hash != state.payments[i].tx_hash);
        } else if i < place {
            assert(state.payments[i].tx_hash != state.payments[place].tx_hash);
        }
    }
    lemma_spend_replaced(state.payments, i, record, campaign_id);
}

/// Where no payment was recorded, a dashboard shows nothing spent.
pub proof fn law_nothing_recorded_nothing_spent(state: AppStateView, campaign_id: u128)
    requires
        state.payments.len() == 0,
        state.campaigns.contains_key(campaign_id),
    ensures
        match state.dashboard(campaign_id) {
            Ok(shown) => shown.spend_cents == 0 && shown.sponsored_calls == 0,
            Err(_) => false,
        },
{
    reveal(Seq::filter);
}

/// A list of profiles that is in order holds none before one that was created earlier.
pub proof fn law_profiles_are_listed_oldest_first(list: Seq<&UserProfile>)
    requires
        in_order(list_times(list)),
    ensures
        forall|i: int, j: int|
            0 <= i < j < list.len() ==> {
                let a = (#[trigger] list[i]).created_at;
                let b = (#[trigger] list[j]).created_at;
                a.secs < b.secs || (a.secs == b.secs && a.nanos <= b.nanos)
            },
{
    assert forall|i: int, j: int| 0 <= i < j < list.len() implies {
        let a = (#[trigger] list[i]).created_at;
        let b = (#[trigger] list[j]).created_at;
        a.secs < b.secs || (a.secs == b.secs && a.nanos <= b.nanos)
    } by {
        assert(list_times(list)[i] == list[i].created_at);
        assert(list_times(list)[j] == list[j].created_at);
    }
}

/// A list of campaigns that is in order holds none before one that was created earlier.
pub proof fn law_campaigns_are_listed_oldest_first(list: Seq<&Campaign>)
    requires
        in_order(list_times(list)),
    ensures
        forall|i: int, j: int|
            0 <= i < j < list.len() ==> {
                let a = (#[trigger] list[i]).created_at;
                let b = (#[trigger] list[j]).created_at;
                a.secs < b.secs || (a.secs == b.secs && a.nanos <= b.nanos)
            },
{
    assert forall|i: int, j: int| 0 <= i < j < list.len() implies {
        let a = (#[trigger] list[i]).created_at;
        let b = (#[trigger] list[j]).created_at;
        a.secs < b.secs || (a.secs == b.secs && a.nanos <= b.nanos)
    } by {
        assert(list_times(list)[i] == list[i].created_at);
        assert(list_times(list)[j] == list[j].created_at);
    }
}

/// A list of the keys of a map holds each of them once, and nothing else.
pub proof fn law_each_key_is_listed_once<V>(keys: Seq<u128>, map: Map<u128, V>, key: u128)
    requires
        lists_keys(keys, map),
    ensures
        map.contains_key(key) ==> exists|i: int| 0 <= i < keys.len() && #[trigger] keys[i] == key,
        forall|i: int| 0 <= i < keys.len() ==> map.contains_key(#[trigger] keys[i]),
        forall|i: int, j: int|
            0 <= i < j < keys.len() ==> #[trigger] keys[i] != #[trigger] keys[j],
{
    assert(keys.to_set().contains(key) == map.contains_key(key));
    assert forall|i: int| 0 <= i < keys.len() implies map.contains_key(#[trigger] keys[i]) by {
        assert(keys.to_set().contains(keys[i]));
    }
}

/// All users that exist are listed, each once, by their own identifiers.
pub proof fn law_listed_profiles_are_all_users(
    state: AppStateView,
    list: Seq<&UserProfile>,
    id: u128,
)
    requires
        lists_keys(list_keys(list), state.users),
    ensures
        state.users.contains_key(id) == exists|i: int|
            0 <= i < list.len() && (#[trigger] list[i]).id == id,
        forall|i: int, j: int|
            0 <= i < j < list.len() ==> (#[trigger] list[i]).id != (#[trigger] list[j]).id,
{
    let keys = list_keys(list);
    law_each_key_is_listed_once(keys, state.users, id);
    if state.users.contains_key(id) {
        let i = choose|i: int| 0 <= i < keys.len() && #[trigger] keys[i] == id;
        assert(list[i].id == id);
    }
    if exists|i: int| 0 <= i < list.len() && (#[trigger] list[i]).id == id {
        let i = choose|i: int| 0 <= i < list.len() && (#[trigger] list[i]).id == id;
        assert(keys[i] == id);
    }
    assert forall|i: int, j: int| 0 <= i < j < list.len() implies (#[trigger] list[i]).id != (
    #[trigger] list[j]).id by {
        assert(keys[i] != keys[j]);
    }
}

/// All campaigns that exist are listed, each once, by their own identifiers.
pub proof fn law_listed_campaigns_are_all_campaigns(
    state: AppStateView,
    list: Seq<&Campaign>,
    id: u128,
)
    requires
        lists_keys(list_keys(list), state.campaigns),
    ensures
        state.campaigns.contains_key(id) == exists|i: int|
            0 <= i < list.len() && (#[trigger] list[i]).id == id,
        forall|i: int, j: int|
            0 <= i < j < list.len() ==> (#[trigger] list[i]).id != (#[trigger] list[j]).id,
{
    let keys = list_keys(list);
    law_each_key_is_listed_once(keys, state.campaigns, id);
    if state.campaigns.contains_key(id) {
        let i = choose|i: int| 0 <= i < keys.len() && #[trigger] keys[i] == id;
        assert(list[i].id == id);
    }
    if exists|i: int| 0 <= i < list.len() && (#[trigger] list[i]).id == id {
        let i = choose|i: int| 0 <= i < list.len() && (#[trigger] list[i]).id == id;
        assert(keys[i] == id);
    }
    assert forall|i: int, j: int| 0 <= i < j < list.len() implies (#[trigger] list[i]).id != (
    #[trigger] list[j]).id by {
        assert(keys[i] != keys[j]);
    }
}

} // verus!
