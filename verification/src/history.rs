//! Requests that are answered one after another, and what becomes of a campaign's budget.

use vstd::prelude::*;

use crate::laws::{
    law_proxy_run_conserves_each_budget, law_recording_keeps_transactions_apart,
    law_sponsor_choice_in_any_order,
};
use crate::listing::lists_keys;
use crate::metrics::MetricsView;
use crate::payments::PaymentCredential;
use crate::proxy::{sponsor_tx_hash, targets, task_done};
use crate::reports::payments_of;
use crate::state::{has_payment, AppStateView};
use crate::types::{
    CampaignView, CreateCampaignRequest, CreateUserRequest, CreatorMetricEventRequest,
    PaymentRecordView, ServiceRunRequest, TaskCompletionRequest, Timestamp,
};

verus! {

/// A request that changes the state, with what was drawn to answer it. Settlements that are
/// reported from outside are not among them.
pub enum Request {
    Profile { request: CreateUserRequest, id: u128, now: Timestamp },
    Campaign { request: CreateCampaignRequest, id: u128, now: Timestamp },
    Task { request: TaskCompletionRequest, id: u128, now: Timestamp },
    /// The first step of a run through the proxy.
    ProxyRun {
        service: Seq<char>,
        request: ServiceRunRequest,
        credential: PaymentCredential,
        walk: Seq<u128>,
        id: u128,
        now: Timestamp,
    },
    /// The end of a run that its user paid for: of a tool, of a service through the proxy or of a
    /// sponsored API.
    PaidRun,
    Event { request: CreatorMetricEventRequest, id: u128, now: Timestamp },
    /// Whatever changes the counts alone.
    Count { metrics: MetricsView },
}

impl AppStateView {
    /// The state after a request.
    pub open spec fn after_request(self, request: Request) -> AppStateView {
        match request {
            Request::Profile { request, id, now } => self.with_user(request.profile(id, now)),
            Request::Campaign { request, id, now } => self.with_campaign(
                request.campaign(id, now),
            ),
            Request::Task { request, id, now } => self.after_task(request, id, now),
            Request::ProxyRun { service, request, credential, walk, id, now } =>
                self.after_proxy_step(service, request, credential, walk, id, now),
            Request::PaidRun => self.with_user_payment(),
            Request::Event { request, id, now } => self.after_creator_event(request, id, now),
            Request::Count { metrics } => self.with_metrics(metrics),
        }
    }

    /// The state after requests.
    pub open spec fn after_requests(self, history: Seq<Request>) -> AppStateView
        decreases history.len(),
    {
        if history.len() == 0 {
            self
        } else {
            self.after_requests(history.drop_last()).after_request(history.last())
        }
    }

    /// Whether a campaign pays for a request.
    pub open spec fn request_paid_by(self, request: Request, campaign_id: u128) -> bool {
        match request {
            Request::ProxyRun { service, request, credential, walk, .. } => {
                &&& credential is Missing
                &&& self.paying_campaign(service, request, walk) == Some(campaign_id)
            },
            _ => false,
        }
    }

    /// For how many of the requests a campaign pays.
    pub open spec fn runs_paid_by(self, history: Seq<Request>, campaign_id: u128) -> nat
        decreases history.len(),
    {
        if history.len() == 0 {
            0
        } else {
            let fewer = history.drop_last();
            self.runs_paid_by(fewer, campaign_id) + if self.after_requests(fewer).request_paid_by(
                history.last(),
                campaign_id,
            ) {
                1nat
            } else {
                0
            }
        }
    }

    /// How many calls of a price a campaign still pays for: as many as what it has left holds
    /// prices, while it is active.
    pub open spec fn calls_left(self, campaign_id: u128, price: u64) -> nat {
        let campaign = self.campaigns[campaign_id];
        if campaign.active {
            (campaign.budget_remaining_cents as int / price as int) as nat
        } else {
            0
        }
    }

    /// Whether a request is a run through the proxy, without a payment header, of a user and at a
    /// price.
    pub open spec fn is_run_of(self, request: Request, user_id: u128, price: u64) -> bool {
        match request {
            Request::ProxyRun { service, request, credential, .. } => {
                &&& credential is Missing
                &&& request.user_id == user_id
                &&& self.price(service) == price
            },
            _ => false,
        }
    }

    /// Whether a campaign, and no other, would pay for the runs of a user at a price, as far as its
    /// budget goes: it targets the user, and the user did its task.
    pub open spec fn sole_sponsor(self, campaign_id: u128, user_id: u128, price: u64) -> bool {
        &&& self.campaigns.contains_key(campaign_id)
        &&& self.users.contains_key(user_id)
        &&& targets(self.campaigns[campaign_id], self.users[user_id])
        &&& task_done(
            self.task_completions,
            campaign_id,
            user_id,
            self.campaigns[campaign_id].required_task,
        )
        &&& forall|other: u128|
            other != campaign_id && #[trigger] self.campaigns.contains_key(other) ==> !self.ready(
                other,
                user_id,
                price,
            )
    }

    /// Whether each payment of a campaign is of one that exists.
    pub open spec fn payers_exist(self) -> bool {
        forall|i: int|
            0 <= i < self.payments.len() ==> match (#[trigger] self.payments[i]).campaign_id {
                Some(campaign_id) => self.campaigns.contains_key(campaign_id),
                None => true,
            }
    }

    /// Whether what was drawn for a request is as it has to be for a campaign: a sponsored call
    /// walks all campaigns and is of a new transaction, and a new campaign has an identifier of
    /// its own.
    pub open spec fn well_drawn(self, request: Request, campaign_id: u128) -> bool {
        match request {
            Request::ProxyRun { credential, walk, id, .. } => credential is Missing ==> {
                &&& lists_keys(walk, self.campaigns)
                &&& !has_payment(self.payments, sponsor_tx_hash(id))
            },
            Request::Campaign { id, .. } => id != campaign_id,
            _ => true,
        }
    }

    /// Whether what was drawn for requests is as it has to be for a campaign.
    pub open spec fn all_well_drawn(self, history: Seq<Request>, campaign_id: u128) -> bool
        decreases history.len(),
    {
        history.len() > 0 ==> {
            &&& self.all_well_drawn(history.drop_last(), campaign_id)
            &&& self.after_requests(history.drop_last()).well_drawn(history.last(), campaign_id)
        }
    }
}

/// A request leaves the state consistent.
proof fn lemma_request_keeps_consistency(state: AppStateView, request: Request, campaign_id: u128)
    requires
        state.consistent(),
        state.well_drawn(request, campaign_id),
    ensures
        state.after_request(request).consistent(),
{
    if let Request::ProxyRun { service, request, credential, walk, id, now } = request {
        if credential is Missing {
            law_sponsor_choice_in_any_order(state, request.user_id, state.price(service), walk);
            if let Some(payer) = state.paying_campaign(service, request, walk) {
                law_recording_keeps_transactions_apart(
                    state.payments,
                    state.sponsor_record(payer, service, id, now),
                );
            }
        }
    }
}

/// Through any requests, what a campaign has spent and what it has left add up to the same, and
/// what it has left never grows. Its payments grow by one for each run that it paid for.
pub proof fn law_requests_conserve_each_budget(
    state: AppStateView,
    history: Seq<Request>,
    campaign_id: u128,
)
    requires
        state.consistent(),
        state.campaigns.contains_key(campaign_id),
        state.all_well_drawn(history, campaign_id),
    ensures
        ({
            let after = state.after_requests(history);
            &&& after.consistent()
            &&& after.campaigns.contains_key(campaign_id)
            &&& after.spent(campaign_id) + after.campaigns[campaign_id].budget_remaining_cents
                == state.spent(campaign_id) + state.campaigns[campaign_id].budget_remaining_cents
            &&& after.campaigns[campaign_id].budget_remaining_cents
                <= state.campaigns[campaign_id].budget_remaining_cents
            &&& payments_of(after.payments, campaign_id).len() == payments_of(
                state.payments,
                campaign_id,
            ).len() + state.runs_paid_by(history, campaign_id)
        }),
    decreases history.len(),
{
    if history.len() > 0 {
        let fewer = history.drop_last();
        let before = state.after_requests(fewer);
        law_requests_conserve_each_budget(state, fewer, campaign_id);
        lemma_request_keeps_consistency(before, history.last(), campaign_id);
        if let Request::ProxyRun { service, request, credential, walk, id, now } = history.last() {
            if credential is Missing {
                law_proxy_run_conserves_each_budget(
                    before,
                    service,
                    request,
                    walk,
                    id,
                    now,
                    campaign_id,
                );
            }
        }
    }
}

/// Where each payment of a campaign is of one that exists, this stays so through any requests, and
/// under a new identifier no payment is found.
pub proof fn law_new_campaign_has_paid_nothing(
    state: AppStateView,
    history: Seq<Request>,
    id: u128,
)
    requires
        state.consistent(),
        state.payers_exist(),
        state.all_well_drawn(history, id),
    ensures
        ({
            let after = state.after_requests(history);
            &&& after.consistent()
            &&& after.payers_exist()
            &&& !after.campaigns.contains_key(id) ==> payments_of(after.payments, id).len() == 0
        }),
    decreases history.len(),
{
    let after = state.after_requests(history);
    if history.len() > 0 {
        let fewer = history.drop_last();
        let before = state.after_requests(fewer);
        law_new_campaign_has_paid_nothing(state, fewer, id);
        lemma_request_keeps_consistency(before, history.last(), id);
        if let Request::ProxyRun { service, request, credential, walk, .. } = history.last() {
            if credential is Missing {
                law_sponsor_choice_in_any_order(
                    before,
                    request.user_id,
                    before.price(service),
                    walk,
                );
            }
        }
        assert(after.payers_exist());
    }
    if !after.campaigns.contains_key(id) {
        lemma_none_paid(after.payments, id);
    }
}

/// A campaign that no payment names has no payments.
proof fn lemma_none_paid(payments: Seq<PaymentRecordView>, campaign_id: u128)
    requires
        forall|i: int|
            0 <= i < payments.len() ==> (#[trigger] payments[i]).campaign_id != Some(campaign_id),
    ensures
        payments_of(payments, campaign_id).len() == 0,
    decreases payments.len(),
{
    reveal(Seq::filter);
    if payments.len() > 0 {
        let fewer = payments.drop_last();
        assert forall|i: int| 0 <= i < fewer.len() implies (#[trigger] fewer[i]).campaign_id
            != Some(campaign_id) by {
            assert(fewer[i] == payments[i]);
        }
        lemma_none_paid(fewer, campaign_id);
        assert(payments[payments.len() - 1].campaign_id != Some(campaign_id));
    }
}

/// After any requests, the dashboard of a campaign accounts for its budget: what is spent and what
/// is left add up to what the campaign was created with, and the sponsored calls are the runs that
/// it paid for.
pub proof fn law_dashboard_accounts_for_the_budget(
    state: AppStateView,
    request: CreateCampaignRequest,
    id: u128,
    now: Timestamp,
    history: Seq<Request>,
)
    requires
        state.consistent(),
        payments_of(state.payments, id).len() == 0,
        state.with_campaign(request.campaign(id, now)).all_well_drawn(history, id),
    ensures
        ({
            let created = state.with_campaign(request.campaign(id, now));
            match created.after_requests(history).dashboard(id) {
                Ok(shown) => {
                    &&& shown.spend_cents + shown.remaining_budget_cents == request.budget_cents
                    &&& shown.sponsored_calls == created.runs_paid_by(history, id)
                },
                Err(_) => false,
            }
        }),
        state.with_campaign(request.campaign(id, now)).after_requests(history).spent(id)
            <= u64::MAX,
{
    let created = state.with_campaign(request.campaign(id, now));
    law_requests_conserve_each_budget(created, history, id);
}

/// A campaign may pay for the calls of the users that it targets as long as its budget holds the
/// price, and each call leaves it one call fewer to pay for.
pub proof fn law_budget_pays_for_its_calls(
    state: AppStateView,
    campaign_id: u128,
    user_id: u128,
    service: Seq<char>,
    id: u128,
    now: Timestamp,
)
    requires
        state.consistent(),
        state.campaigns.contains_key(campaign_id),
        state.price(service) > 0,
    ensures
        ({
            let price = state.price(service);
            let left = state.calls_left(campaign_id, price);
            let after = state.with_sponsored_call(campaign_id, service, id, now);
            &&& state.eligible(campaign_id, user_id, price) == (left > 0 && targets(
                state.campaigns[campaign_id],
                state.users[user_id],
            ))
            &&& left > 0 ==> after.calls_left(campaign_id, price) == left - 1
        }),
{
    let price = state.price(service) as int;
    let budget = state.campaigns[campaign_id].budget_remaining_cents as int;
    assert(budget >= price ==> budget / price >= 1) by (nonlinear_arith)
        requires
            price > 0,
    ;
    assert(0 <= budget < price ==> budget / price == 0) by (nonlinear_arith)
        requires
            price > 0,
    ;
    assert(budget >= price ==> (budget - price) / price == budget / price - 1) by {
        vstd::arithmetic::div_mod::lemma_div_minus_one(budget, price);
    }
    assert(budget == price ==> budget / price == 1) by (nonlinear_arith)
        requires
            price > 0,
    ;
}

/// A new campaign pays for as many calls of a price as its budget holds prices.
pub proof fn law_new_campaign_pays_for_its_budget(
    state: AppStateView,
    request: CreateCampaignRequest,
    id: u128,
    now: Timestamp,
    price: u64,
)
    requires
        price > 0,
    ensures
        state.with_campaign(request.campaign(id, now)).calls_left(id, price)
            == request.budget_cents as int / price as int,
{
    let budget = request.budget_cents as int;
    assert(budget / price as int >= 0) by (nonlinear_arith)
        requires
            budget >= 0,
            price > 0,
    ;
}

/// No request changes a price.
proof fn lemma_requests_keep_prices(state: AppStateView, history: Seq<Request>)
    ensures
        state.after_requests(history).service_prices == state.service_prices,
    decreases history.len(),
{
    if history.len() > 0 {
        lemma_requests_keep_prices(state, history.drop_last());
    }
}

/// Through requests whose runs through the proxy are of one price, the runs that a campaign paid
/// for and those that it still pays for add up to the same.
pub proof fn law_requests_use_up_the_calls(
    state: AppStateView,
    history: Seq<Request>,
    campaign_id: u128,
    price: u64,
)
    requires
        state.consistent(),
        state.campaigns.contains_key(campaign_id),
        state.all_well_drawn(history, campaign_id),
        price > 0,
        forall|i: int|
            0 <= i < history.len() ==> match #[trigger] history[i] {
                Request::ProxyRun { service, .. } => state.price(service) == price,
                _ => true,
            },
    ensures
        state.runs_paid_by(history, campaign_id) + state.after_requests(history).calls_left(
            campaign_id,
            price,
        ) == state.calls_left(campaign_id, price),
    decreases history.len(),
{
    if history.len() > 0 {
        let fewer = history.drop_last();
        let before = state.after_requests(fewer);
        assert forall|i: int| 0 <= i < fewer.len() implies match #[trigger] fewer[i] {
            Request::ProxyRun { service, .. } => state.price(service) == price,
            _ => true,
        } by {
            assert(fewer[i] == history[i]);
        }
        law_requests_use_up_the_calls(state, fewer, campaign_id, price);
        law_requests_conserve_each_budget(state, fewer, campaign_id);
        lemma_requests_keep_prices(state, fewer);
        assert(history[history.len() - 1] == history.last());
        if let Request::ProxyRun { service, request, credential, walk, id, now } = history.last() {
            assert(before.price(service) == price);
            if credential is Missing {
                law_sponsor_choice_in_any_order(before, request.user_id, price, walk);
                law_budget_pays_for_its_calls(
                    before,
                    campaign_id,
                    request.user_id,
                    service,
                    id,
                    now,
                );
            }
        }
    }
}

/// Where one campaign alone would pay for the runs of a user, it pays for each of them until its
/// budget holds no price any more.
pub proof fn law_sole_sponsor_pays_while_it_can(
    state: AppStateView,
    history: Seq<Request>,
    campaign_id: u128,
    user_id: u128,
    price: u64,
)
    requires
        state.consistent(),
        state.sole_sponsor(campaign_id, user_id, price),
        state.all_well_drawn(history, campaign_id),
        price > 0,
        forall|i: int|
            0 <= i < history.len() ==> #[trigger] state.is_run_of(history[i], user_id, price),
    ensures
        state.runs_paid_by(history, campaign_id) == if history.len() <= state.calls_left(
            campaign_id,
            price,
        ) {
            history.len()
        } else {
            state.calls_left(campaign_id, price)
        },
{
    lemma_sole_sponsor(state, history, campaign_id, user_id, price);
}

/// Where one campaign alone would pay for the runs of a user, runs change nothing else that
/// decides who pays.
proof fn lemma_sole_sponsor(
    state: AppStateView,
    history: Seq<Request>,
    campaign_id: u128,
    user_id: u128,
    price: u64,
)
    requires
        state.consistent(),
        state.sole_sponsor(campaign_id, user_id, price),
        state.all_well_drawn(history, campaign_id),
        price > 0,
        forall|i: int|
            0 <= i < history.len() ==> #[trigger] state.is_run_of(history[i], user_id, price),
    ensures
        state.runs_paid_by(history, campaign_id) == if history.len() <= state.calls_left(
            campaign_id,
            price,
        ) {
            history.len()
        } else {
            state.calls_left(campaign_id, price)
        },
        ({
            let after = state.after_requests(history);
            let campaign = state.campaigns[campaign_id];
            &&& after.users == state.users
            &&& after.task_completions == state.task_completions
            &&& after.campaigns.dom() == state.campaigns.dom()
            &&& after.campaigns[campaign_id] == (CampaignView {
                budget_remaining_cents: after.campaigns[campaign_id].budget_remaining_cents,
                active: after.campaigns[campaign_id].active,
                ..campaign
            })
            &&& forall|other: u128|
                other != campaign_id ==> #[trigger] after.campaigns[other]
                    == state.campaigns[other]
        }),
    decreases history.len(),
{
    if history.len() > 0 {
        let fewer = history.drop_last();
        let before = state.after_requests(fewer);
        assert forall|i: int| 0 <= i < fewer.len() implies #[trigger] state.is_run_of(
            fewer[i],
            user_id,
            price,
        ) by {
            assert(state.is_run_of(history[i], user_id, price));
        }
        lemma_sole_sponsor(state, fewer, campaign_id, user_id, price);
        law_requests_conserve_each_budget(state, fewer, campaign_id);
        lemma_requests_keep_prices(state, fewer);
        assert forall|i: int| 0 <= i < fewer.len() implies match #[trigger] fewer[i] {
            Request::ProxyRun { service, .. } => state.price(service) == price,
            _ => true,
        } by {
            assert(state.is_run_of(fewer[i], user_id, price));
        }
        law_requests_use_up_the_calls(state, fewer, campaign_id, price);
        assert(state.is_run_of(history[history.len() - 1], user_id, price));
        if let Request::ProxyRun { service, request, credential, walk, id, now } = history.last() {
            law_sponsor_choice_in_any_order(before, user_id, price, walk);
            law_budget_pays_for_its_calls(before, campaign_id, user_id, service, id, now);
            assert forall|other: u128|
                other != campaign_id && #[trigger] before.campaigns.contains_key(
                    other,
                ) implies !before.ready(other, user_id, price) by {
                assert(state.campaigns.contains_key(other));
                assert(before.campaigns[other] == state.campaigns[other]);
            }
            assert(before.campaigns.contains_key(campaign_id));
            assert(state.after_requests(history).campaigns.dom() =~= state.campaigns.dom());
        }
    }
}

} // verus!
