//! The state of the server, and the requests that read and change it.

use std::collections::HashMap;

use vstd::hash_map::StringHashMap;
use vstd::prelude::*;

use crate::clock::utc_now;
use crate::config::AppConfig;
use crate::error::{not_found_error, outcome_view, ApiError, ApiErrorView, ApiResult};
use crate::ids::{fresh_id, is_random_uuid};
use crate::metrics::{Metrics, MetricsView};
use crate::text::same_text;
use crate::types::{
    Campaign, CampaignView, CreateCampaignRequest, CreateUserRequest, CreatorEvent,
    CreatorEventView, CreatorMetricEventRequest, MessageResponse, PaymentRecord,
    PaymentRecordView, PaymentSource, PaymentStatus, TaskCompletion, TaskCompletionRequest,
    TaskCompletionView, Timestamp, UserProfile, UserProfileView, X402ScanSettlementRequest,
    DEFAULT_PRICE_CENTS,
};

verus! {

broadcast use vstd::std_specs::hash::group_hash_axioms;

/// Everything that the server keeps in memory.
pub struct AppState {
    pub users: HashMap<u128, UserProfile>,
    pub campaigns: HashMap<u128, Campaign>,
    pub task_completions: Vec<TaskCompletion>,
    /// The payments, at most one of each transaction.
    pub payments: Vec<PaymentRecord>,
    pub creator_events: Vec<CreatorEvent>,
    pub service_prices: StringHashMap<u64>,
    pub metrics: Metrics,
    pub config: AppConfig,
}

/// The contents of an `AppState`.
pub struct AppStateView {
    pub users: Map<u128, UserProfileView>,
    pub campaigns: Map<u128, CampaignView>,
    pub task_completions: Seq<TaskCompletionView>,
    pub payments: Seq<PaymentRecordView>,
    pub creator_events: Seq<CreatorEventView>,
    pub service_prices: Map<Seq<char>, u64>,
    pub metrics: MetricsView,
    pub config: AppConfig,
}

pub open spec fn profile_views(users: Map<u128, UserProfile>) -> Map<u128, UserProfileView> {
    users.map_values(|user: UserProfile| user@)
}

pub open spec fn campaign_views(campaigns: Map<u128, Campaign>) -> Map<u128, CampaignView> {
    campaigns.map_values(|campaign: Campaign| campaign@)
}

pub open spec fn completion_views(completions: Seq<TaskCompletion>) -> Seq<TaskCompletionView> {
    completions.map_values(|completion: TaskCompletion| completion@)
}

pub open spec fn payment_views(payments: Seq<PaymentRecord>) -> Seq<PaymentRecordView> {
    payments.map_values(|record: PaymentRecord| record@)
}

pub open spec fn event_views(events: Seq<CreatorEvent>) -> Seq<CreatorEventView> {
    events.map_values(|event: CreatorEvent| event@)
}

impl View for AppState {
    type V = AppStateView;

    open spec fn view(&self) -> AppStateView {
        AppStateView {
            users: profile_views(self.users@),
            campaigns: campaign_views(self.campaigns@),
            task_completions: completion_views(self.task_completions@),
            payments: payment_views(self.payments@),
            creator_events: event_views(self.creator_events@),
            service_prices: self.service_prices@,
            metrics: self.metrics@,
            config: self.config,
        }
    }
}

/// Whether a payment of the transaction is among the records.
pub open spec fn has_payment(payments: Seq<PaymentRecordView>, tx_hash: Seq<char>) -> bool {
    exists|i: int| 0 <= i < payments.len() && #[trigger] payments[i].tx_hash == tx_hash
}

/// The records after a payment: it takes the place of an earlier one of the same transaction.
pub open spec fn with_record(
    payments: Seq<PaymentRecordView>,
    record: PaymentRecordView,
) -> Seq<PaymentRecordView> {
    if has_payment(payments, record.tx_hash) {
        payments.update(
            choose|i: int|
                0 <= i < payments.len() && #[trigger] payments[i].tx_hash == record.tx_hash,
            record,
        )
    } else {
        payments.push(record)
    }
}

/// Whether no two records are of the same transaction.
pub open spec fn distinct_payments(payments: Seq<PaymentRecordView>) -> bool {
    forall|i: int, j: int|
        0 <= i < j < payments.len() ==> #[trigger] payments[i].tx_hash
            != #[trigger] payments[j].tx_hash
}

impl AppStateView {
    /// What holds of the state at all times: users and campaigns are kept under their own
    /// identifiers, tasks were completed by users that exist for campaigns that exist, and each
    /// transaction was recorded once.
    pub open spec fn consistent(self) -> bool {
        &&& forall|id: u128| #[trigger] self.users.contains_key(id) ==> self.users[id].id == id
        &&& forall|id: u128| #[trigger]
            self.campaigns.contains_key(id) ==> self.campaigns[id].id == id
        &&& forall|i: int|
            0 <= i < self.task_completions.len() ==> {
                &&& self.campaigns.contains_key((#[trigger] self.task_completions[i]).campaign_id)
                &&& self.users.contains_key(self.task_completions[i].user_id)
            }
        &&& distinct_payments(self.payments)
    }

    /// The price of a call to a service.
    pub open spec fn price(self, service: Seq<char>) -> u64 {
        if self.service_prices.contains_key(service) {
            self.service_prices[service]
        } else {
            DEFAULT_PRICE_CENTS
        }
    }
}

/// The prices that the server starts with.
pub open spec fn initial_prices() -> Map<Seq<char>, u64> {
    Map::<Seq<char>, u64>::empty().insert("scraping"@, 5).insert("design"@, 8).insert(
        "storage"@,
        3,
    ).insert("data-tooling"@, 4)
}

impl AppStateView {
    /// The state that the server starts with.
    pub open spec fn initial(config: AppConfig) -> AppStateView {
        AppStateView {
            users: Map::empty(),
            campaigns: Map::empty(),
            task_completions: Seq::empty(),
            payments: Seq::empty(),
            creator_events: Seq::empty(),
            service_prices: initial_prices(),
            metrics: MetricsView::zero(),
            config,
        }
    }
}

impl AppState {
    /// Whether the state is consistent, and its counters can be counted by.
    pub open spec fn well_formed(self) -> bool {
        &&& self.metrics.well_formed()
        &&& self@.consistent()
    }

    /// The state that the server starts with.
    pub fn new(config: AppConfig) -> (r: AppState)
        ensures
            r.well_formed(),
            r@ == AppStateView::initial(config),
    {
        let mut service_prices: StringHashMap<u64> = StringHashMap::new();
        service_prices.insert("scraping".to_owned(), 5);
        service_prices.insert("design".to_owned(), 8);
        service_prices.insert("storage".to_owned(), 3);
        service_prices.insert("data-tooling".to_owned(), 4);
        let state = AppState {
            users: HashMap::new(),
            campaigns: HashMap::new(),
            task_completions: Vec::new(),
            payments: Vec::new(),
            creator_events: Vec::new(),
            service_prices,
            metrics: Metrics::new(),
            config,
        };
        proof {
            assert(state@.users =~= Map::empty());
            assert(state@.campaigns =~= Map::empty());
            assert(state@.task_completions =~= Seq::empty());
            assert(state@.payments =~= Seq::empty());
            assert(state@.creator_events =~= Seq::empty());
        }
        state
    }

    /// The price of a call to a service: its own, or else the default.
    pub fn service_price(&self, service: &str) -> (r: u64)
        ensures
            r == self@.price(service@),
    {
        match self.service_prices.get(service) {
            Some(price) => *price,
            None => DEFAULT_PRICE_CENTS,
        }
    }
}

/// The payment mode under which a payment is counted.
pub open spec fn source_mode(source: PaymentSource) -> Seq<char> {
    match source {
        PaymentSource::User => "user_direct"@,
        PaymentSource::Sponsor => "sponsored"@,
    }
}

/// The payment status under which a payment is counted.
pub open spec fn status_label(status: PaymentStatus) -> Seq<char> {
    match status {
        PaymentStatus::Settled => "settled"@,
        PaymentStatus::Failed => "failed"@,
    }
}

impl AppStateView {
    /// The state after a user was added.
    pub open spec fn with_user(self, user: UserProfileView) -> AppStateView {
        AppStateView { users: self.users.insert(user.id, user), ..self }
    }

    /// The state after a campaign was added, or changed.
    pub open spec fn with_campaign(self, campaign: CampaignView) -> AppStateView {
        AppStateView { campaigns: self.campaigns.insert(campaign.id, campaign), ..self }
    }

    /// The state after a task was completed.
    pub open spec fn with_completion(self, completion: TaskCompletionView) -> AppStateView {
        AppStateView { task_completions: self.task_completions.push(completion), ..self }
    }

    /// The state after a payment was recorded.
    pub open spec fn with_payment(self, record: PaymentRecordView) -> AppStateView {
        AppStateView { payments: with_record(self.payments, record), ..self }
    }

    /// The state after a creator event.
    pub open spec fn with_event(self, event: CreatorEventView) -> AppStateView {
        AppStateView { creator_events: self.creator_events.push(event), ..self }
    }

    /// The state with other counts.
    pub open spec fn with_metrics(self, metrics: MetricsView) -> AppStateView {
        AppStateView { metrics, ..self }
    }

    /// The state after a settlement was reported: it is recorded, and counted under its mode and
    /// its status.
    pub open spec fn after_settlement(
        self,
        request: X402ScanSettlementRequest,
        now: Timestamp,
    ) -> AppStateView {
        self.with_payment(request.record(now)).with_metrics(
            self.metrics.with_payment(source_mode(request.source), status_label(request.status)),
        )
    }

    /// The state after a creator event was reported: it is kept, and counted under its skill, its
    /// platform and its type.
    pub open spec fn after_creator_event(
        self,
        request: CreatorMetricEventRequest,
        id: u128,
        now: Timestamp,
    ) -> AppStateView {
        self.with_event(request.event(id, now)).with_metrics(
            self.metrics.with_creator_event(
                request.skill_name@,
                request.platform@,
                request.event_type@,
            ),
        )
    }

    /// What a report of a completed task comes to: the campaign and the user have to exist.
    pub open spec fn task_outcome(
        self,
        request: TaskCompletionRequest,
        id: u128,
        now: Timestamp,
    ) -> Result<TaskCompletionView, ApiErrorView> {
        if !self.campaigns.contains_key(request.campaign_id) {
            Err(not_found_error("campaign not found"@))
        } else if !self.users.contains_key(request.user_id) {
            Err(not_found_error("user not found"@))
        } else {
            Ok(request.completion(id, now))
        }
    }

    /// The state after a report of a completed task.
    pub open spec fn after_task(
        self,
        request: TaskCompletionRequest,
        id: u128,
        now: Timestamp,
    ) -> AppStateView {
        match self.task_outcome(request, id, now) {
            Ok(completion) => self.with_completion(completion),
            Err(_) => self,
        }
    }
}

impl AppState {
    /// Adds a user under an identifier.
    pub fn create_profile_as(
        &mut self,
        payload: CreateUserRequest,
        id: u128,
        now: Timestamp,
    ) -> (r: UserProfile)
        requires
            old(self).well_formed(),
        ensures
            final(self).well_formed(),
            r@ == payload.profile(id, now),
            final(self)@ == old(self)@.with_user(r@),
    {
        let profile: UserProfile = payload.into_profile(id, now);
        let stored: UserProfile = profile.clone();
        self.users.insert(id, stored);
        assert(self@.users =~= old(self)@.users.insert(id, profile@));
        profile
    }

    /// Adds a user.
    pub fn create_profile(&mut self, payload: CreateUserRequest) -> (r: UserProfile)
        requires
            old(self).well_formed(),
        ensures
            final(self).well_formed(),
            is_random_uuid(r.id),
            r@ == payload.profile(r.id, r.created_at),
            final(self)@ == old(self)@.with_user(r@),
    {
        let id: u128 = fresh_id();
        let now: Timestamp = utc_now();
        self.create_profile_as(payload, id, now)
    }

    /// Adds a campaign under an identifier: active, with its whole budget left.
    pub fn create_campaign_as(
        &mut self,
        payload: CreateCampaignRequest,
        id: u128,
        now: Timestamp,
    ) -> (r: Campaign)
        requires
            old(self).well_formed(),
        ensures
            final(self).well_formed(),
            r@ == payload.campaign(id, now),
            final(self)@ == old(self)@.with_campaign(r@),
    {
        let campaign = Campaign {
            id,
            name: payload.name,
            sponsor: payload.sponsor,
            target_roles: payload.target_roles,
            target_tools: payload.target_tools,
            required_task: payload.required_task,
            subsidy_per_call_cents: payload.subsidy_per_call_cents,
            budget_remaining_cents: payload.budget_cents,
            active: true,
            created_at: now,
        };
        let stored: Campaign = campaign.clone();
        self.campaigns.insert(id, stored);
        assert(self@.campaigns =~= old(self)@.campaigns.insert(id, campaign@));
        campaign
    }

    /// Adds a campaign.
    pub fn create_campaign(&mut self, payload: CreateCampaignRequest) -> (r: Campaign)
        requires
            old(self).well_formed(),
        ensures
            final(self).well_formed(),
            is_random_uuid(r.id),
            r@ == payload.campaign(r.id, r.created_at),
            final(self)@ == old(self)@.with_campaign(r@),
    {
        let id: u128 = fresh_id();
        let now: Timestamp = utc_now();
        self.create_campaign_as(payload, id, now)
    }

    /// Records that a user completed a campaign's task, under an identifier.
    pub fn complete_task_as(
        &mut self,
        payload: TaskCompletionRequest,
        id: u128,
        now: Timestamp,
    ) -> (r: ApiResult<TaskCompletion>)
        requires
            old(self).well_formed(),
        ensures
            final(self).well_formed(),
            outcome_view(r) == old(self)@.task_outcome(payload, id, now),
            final(self)@ == old(self)@.after_task(payload, id, now),
    {
        if !self.campaigns.contains_key(&payload.campaign_id) {
            return Err(ApiError::not_found("campaign not found"));
        }
        if !self.users.contains_key(&payload.user_id) {
            return Err(ApiError::not_found("user not found"));
        }
        let completion = TaskCompletion {
            id,
            campaign_id: payload.campaign_id,
            user_id: payload.user_id,
            task_name: payload.task_name,
            details: payload.details,
            created_at: now,
        };
        let stored: TaskCompletion = completion.clone();
        self.task_completions.push(stored);
        assert(self@.task_completions =~= old(self)@.task_completions.push(completion@));
        Ok(completion)
    }

    /// Records that a user completed a campaign's task.
    pub fn complete_task(&mut self, payload: TaskCompletionRequest) -> (r: ApiResult<
        TaskCompletion,
    >)
        requires
            old(self).well_formed(),
        ensures
            final(self).well_formed(),
            match r {
                Ok(completion) => {
                    &&& is_random_uuid(completion.id)
                    &&& old(self)@.task_outcome(payload, completion.id, completion.created_at)
                        == Ok::<TaskCompletionView, ApiErrorView>(completion@)
                    &&& final(self)@ == old(self)@.with_completion(completion@)
                },
                Err(error) => {
                    &&& forall|id: u128, now: Timestamp| #[trigger]
                        old(self)@.task_outcome(payload, id, now) == Err::<
                            TaskCompletionView,
                            ApiErrorView,
                        >(error@)
                    &&& final(self)@ == old(self)@
                },
            },
    {
        let id: u128 = fresh_id();
        let now: Timestamp = utc_now();
        self.complete_task_as(payload, id, now)
    }

    /// Records a payment, in place of an earlier one of the same transaction.
    pub fn record_payment(&mut self, record: PaymentRecord)
        requires
            old(self).well_formed(),
        ensures
            final(self).well_formed(),
            final(self)@ == old(self)@.with_payment(record@),
    {
        let ghost before = self@.payments;
        let mut i: usize = 0;
        while i < self.payments.len()
            invariant
                i <= self.payments.len(),
                before == self@.payments,
                *self == *old(self),
                old(self).well_formed(),
                forall|j: int| 0 <= j < i ==> (#[trigger] before[j]).tx_hash != record.tx_hash@,
            decreases self.payments.len() - i,
        {
            assert(before[i as int] == self.payments@[i as int]@);
            if same_text(self.payments[i].tx_hash.as_str(), record.tx_hash.as_str()) {
                let ghost view = record@;
                assert(before[i as int].tx_hash == record.tx_hash@);
                self.payments.set(i, record);
                assert(self@.payments =~= with_record(before, view));
                return ;
            }
            i = i + 1;
        }
        let ghost view = record@;
        self.payments.push(record);
        assert(self@.payments =~= with_record(before, view));
    }

    /// Takes in a settlement that the x402scan service reports, at a point in time.
    pub fn ingest_x402scan_settlement_at(
        &mut self,
        payload: X402ScanSettlementRequest,
        now: Timestamp,
    ) -> (r: MessageResponse)
        requires
            old(self).well_formed(),
        ensures
            final(self).well_formed(),
            r.message@ == "settlement ingested"@,
            final(self)@ == old(self)@.after_settlement(payload, now),
    {
        let mode: &str = match payload.source {
            PaymentSource::User => "user_direct",
            PaymentSource::Sponsor => "sponsored",
        };
        let status: &str = match payload.status {
            PaymentStatus::Settled => "settled",
            PaymentStatus::Failed => "failed",
        };
        self.record_payment(
            PaymentRecord {
                tx_hash: payload.tx_hash,
                campaign_id: payload.campaign_id,
                service: payload.service,
                amount_cents: payload.amount_cents,
                payer: payload.payer,
                source: payload.source,
                status: payload.status,
                created_at: now,
            },
        );
        self.metrics.mark_payment(mode, status);
        MessageResponse { message: "settlement ingested".to_owned() }
    }

    /// Takes in a settlement that the x402scan service reports.
    pub fn ingest_x402scan_settlement(&mut self, payload: X402ScanSettlementRequest) -> (r:
        MessageResponse)
        requires
            old(self).well_formed(),
        ensures
            final(self).well_formed(),
            r.message@ == "settlement ingested"@,
            exists|now: Timestamp|
                final(self)@ == #[trigger] old(self)@.after_settlement(payload, now),
    {
        let now: Timestamp = utc_now();
        self.ingest_x402scan_settlement_at(payload, now)
    }

    /// Takes in a creator event, under an identifier.
    pub fn record_creator_metric_event_as(
        &mut self,
        payload: CreatorMetricEventRequest,
        id: u128,
        now: Timestamp,
    ) -> (r: CreatorEvent)
        requires
            old(self).well_formed(),
        ensures
            final(self).well_formed(),
            r@ == payload.event(id, now),
            final(self)@ == old(self)@.after_creator_event(payload, id, now),
    {
        let event = CreatorEvent {
            id,
            skill_name: payload.skill_name,
            platform: payload.platform,
            event_type: payload.event_type,
            duration_ms: payload.duration_ms,
            success: payload.success,
            created_at: now,
        };
        self.metrics.mark_creator_event(
            event.skill_name.as_str(),
            event.platform.as_str(),
            event.event_type.as_str(),
        );
        let stored: CreatorEvent = event.clone();
        self.creator_events.push(stored);
        assert(self@.creator_events =~= old(self)@.creator_events.push(event@));
        event
    }

    /// Takes in a creator event.
    pub fn record_creator_metric_event(&mut self, payload: CreatorMetricEventRequest) -> (r:
        CreatorEvent)
        requires
            old(self).well_formed(),
        ensures
            final(self).well_formed(),
            is_random_uuid(r.id),
            r@ == payload.event(r.id, r.created_at),
            final(self)@ == old(self)@.after_creator_event(payload, r.id, r.created_at),
    {
        let id: u128 = fresh_id();
        let now: Timestamp = utc_now();
        self.record_creator_metric_event_as(payload, id, now)
    }
}

} // verus!
