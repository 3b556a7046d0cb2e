//! Calls through the proxy, and the campaigns that pay for them.

use vstd::prelude::*;

use crate::clock::utc_now;
use crate::error::{
    not_found_error, outcome_view, precondition_error, ApiError, ApiErrorView, ApiResult,
};
use crate::ids::{fresh_id, is_random_uuid, print_id, uuid_text};
use crate::listing::{keys_of, lists_keys};
use crate::paid_runs::{PaidRunStep, PaidRunStepView};
use crate::payments::{
    build_paid_tool_response, paid_reply, payment_required, payment_required_error, PaidReply,
    PaidReplyView, PaymentCredential,
};
use crate::state::{AppState, AppStateView};
use crate::text::same_text;
use crate::types::{
    texts, Campaign, CampaignView, PaymentRecord, PaymentRecordView, PaymentSource, PaymentStatus,
    ServiceRunRequest, TaskCompletionView, Timestamp, UserProfile, UserProfileView,
};

verus! {

broadcast use vstd::std_specs::hash::group_hash_axioms;

/// Whether two lists have a text in common.
pub open spec fn share_a_text(a: Seq<Seq<char>>, b: Seq<Seq<char>>) -> bool {
    exists|i: int, j: int|
        0 <= i < a.len() && 0 <= j < b.len() && #[trigger] a[i] == #[trigger] b[j]
}

/// Whether a campaign targets a user: by one of its roles and by one of its tools, where it names
/// any.
pub open spec fn targets(campaign: CampaignView, user: UserProfileView) -> bool {
    &&& campaign.target_roles.len() == 0 || share_a_text(campaign.target_roles, user.roles)
    &&& campaign.target_tools.len() == 0 || share_a_text(campaign.target_tools, user.tools_used)
}

/// Whether a user completed a task of a campaign.
pub open spec fn task_done(
    completions: Seq<TaskCompletionView>,
    campaign_id: u128,
    user_id: u128,
    task: Seq<char>,
) -> bool {
    exists|i: int| #[trigger] is_completion(completions, i, campaign_id, user_id, task)
}

/// Whether the completion at an index is of a user, for a task of a campaign.
pub open spec fn is_completion(
    completions: Seq<TaskCompletionView>,
    i: int,
    campaign_id: u128,
    user_id: u128,
    task: Seq<char>,
) -> bool {
    &&& 0 <= i < completions.len()
    &&& completions[i].campaign_id == campaign_id
    &&& completions[i].user_id == user_id
    &&& completions[i].task_name == task
}

/// The first key of a walk that has a property.
pub open spec fn first_where(walk: Seq<u128>, wanted: spec_fn(u128) -> bool) -> Option<u128>
    decreases walk.len(),
{
    if walk.len() == 0 {
        None
    } else if wanted(walk[0]) {
        Some(walk[0])
    } else {
        first_where(walk.drop_first(), wanted)
    }
}

/// Who pays for a call.
pub enum SponsorChoice {
    /// The campaign pays.
    Ready { campaign_id: u128 },
    /// The campaign would pay if its task were done.
    NeedsTask { campaign_id: u128 },
    /// No campaign would pay.
    NoSponsor,
}

/// A campaign after it paid for a call: it ends with its budget.
pub open spec fn debited(campaign: CampaignView, price: u64) -> CampaignView {
    CampaignView {
        budget_remaining_cents: (campaign.budget_remaining_cents - price) as u64,
        active: campaign.active && campaign.budget_remaining_cents != price,
        ..campaign
    }
}

/// The transaction of a sponsored call.
pub open spec fn sponsor_tx_hash(id: u128) -> Seq<char> {
    "sponsor-"@ + uuid_text(id)
}

/// What is said of a campaign whose task is not done.
pub open spec fn task_message(campaign: CampaignView) -> Seq<char> {
    "complete sponsor task '"@ + campaign.required_task + "' for campaign '"@ + campaign.name
        + "' before sponsored usage"@
}

impl AppStateView {
    /// Whether a campaign may pay for a user's call: it is active, has the price left and targets
    /// the user.
    pub open spec fn eligible(self, campaign_id: u128, user_id: u128, price: u64) -> bool {
        let campaign = self.campaigns[campaign_id];
        &&& campaign.active
        &&& campaign.budget_remaining_cents >= price
        &&& targets(campaign, self.users[user_id])
    }

    /// Whether a campaign pays for a user's call: it may, and the user did its task.
    pub open spec fn ready(self, campaign_id: u128, user_id: u128, price: u64) -> bool {
        &&& self.eligible(campaign_id, user_id, price)
        &&& task_done(
            self.task_completions,
            campaign_id,
            user_id,
            self.campaigns[campaign_id].required_task,
        )
    }

    /// Who pays for a user's call, when the campaigns are walked in an order: the first that is
    /// ready, or else the first that is eligible waits for its task.
    pub open spec fn sponsor_choice(
        self,
        user_id: u128,
        price: u64,
        walk: Seq<u128>,
    ) -> SponsorChoice {
        match first_where(walk, |id: u128| self.ready(id, user_id, price)) {
            Some(campaign_id) => SponsorChoice::Ready { campaign_id },
            None => match first_where(walk, |id: u128| self.eligible(id, user_id, price)) {
                Some(campaign_id) => SponsorChoice::NeedsTask { campaign_id },
                None => SponsorChoice::NoSponsor,
            },
        }
    }

    /// The record of a call that a campaign paid for.
    pub open spec fn sponsor_record(
        self,
        campaign_id: u128,
        service: Seq<char>,
        id: u128,
        now: Timestamp,
    ) -> PaymentRecordView {
        PaymentRecordView {
            tx_hash: sponsor_tx_hash(id),
            campaign_id: Some(campaign_id),
            service,
            amount_cents: self.price(service),
            payer: self.campaigns[campaign_id].sponsor,
            source: PaymentSource::Sponsor,
            status: PaymentStatus::Settled,
            created_at: now,
        }
    }

    /// The state after a campaign paid for a call.
    pub open spec fn with_sponsored_call(
        self,
        campaign_id: u128,
        service: Seq<char>,
        id: u128,
        now: Timestamp,
    ) -> AppStateView {
        let price = self.price(service);
        self.with_campaign(debited(self.campaigns[campaign_id], price)).with_payment(
            self.sponsor_record(campaign_id, service, id, now),
        ).with_metrics(
            self.metrics.with_payment("sponsored"@, "settled"@).with_spend(price),
        )
    }

    /// What a call through the proxy without a payment header comes to.
    pub open spec fn proxy_outcome(
        self,
        service: Seq<char>,
        request: ServiceRunRequest,
        walk: Seq<u128>,
        id: u128,
    ) -> Result<PaidReplyView, ApiErrorView> {
        let price = self.price(service);
        if !self.users.contains_key(request.user_id) {
            Err(not_found_error("user profile is required before proxy usage"@))
        } else {
            match self.sponsor_choice(request.user_id, price, walk) {
                SponsorChoice::Ready { campaign_id } => Ok(
                    paid_reply(
                        service,
                        request.input@,
                        "sponsored"@,
                        Some(self.campaigns[campaign_id].sponsor),
                        Some(sponsor_tx_hash(id)),
                        None,
                    ),
                ),
                SponsorChoice::NeedsTask { campaign_id } => Err(
                    precondition_error(task_message(self.campaigns[campaign_id])),
                ),
                SponsorChoice::NoSponsor => Err(
                    payment_required(
                        service,
                        price,
                        "no eligible sponsor campaign found"@,
                        "either complete a sponsor task or pay with PAYMENT-SIGNATURE"@,
                    ),
                ),
            }
        }
    }

    /// The campaign that pays for a call through the proxy without a payment header, where one
    /// does.
    pub open spec fn paying_campaign(
        self,
        service: Seq<char>,
        request: ServiceRunRequest,
        walk: Seq<u128>,
    ) -> Option<u128> {
        if !self.users.contains_key(request.user_id) {
            None
        } else {
            match self.sponsor_choice(request.user_id, self.price(service), walk) {
                SponsorChoice::Ready { campaign_id } => Some(campaign_id),
                _ => None,
            }
        }
    }

    /// The state after a call through the proxy without a payment header.
    pub open spec fn after_proxy(
        self,
        service: Seq<char>,
        request: ServiceRunRequest,
        walk: Seq<u128>,
        id: u128,
        now: Timestamp,
    ) -> AppStateView {
        match self.paying_campaign(service, request, walk) {
            Some(campaign_id) => self.with_sponsored_call(campaign_id, service, id, now),
            None => self,
        }
    }
}

/// What a run through the proxy does first.
#[derive(Debug)]
pub enum ProxyStep {
    /// A sponsor paid for it.
    Reply { reply: PaidReply },
    /// Its user is to pay for it.
    Pay { step: PaidRunStep },
    Refuse { error: ApiError },
}

/// The contents of a `ProxyStep`.
pub enum ProxyStepView {
    Reply { reply: PaidReplyView },
    Pay { step: PaidRunStepView },
    Refuse { error: ApiErrorView },
}

impl View for ProxyStep {
    type V = ProxyStepView;

    open spec fn view(&self) -> ProxyStepView {
        match self {
            ProxyStep::Reply { reply } => ProxyStepView::Reply { reply: reply@ },
            ProxyStep::Pay { step } => ProxyStepView::Pay { step: step@ },
            ProxyStep::Refuse { error } => ProxyStepView::Refuse { error: error@ },
        }
    }
}

impl AppStateView {
    /// The step that starts a run through the proxy: its user pays where the request holds a
    /// payment header, and a sponsor otherwise.
    pub open spec fn proxy_step(
        self,
        service: Seq<char>,
        request: ServiceRunRequest,
        credential: PaymentCredential,
        walk: Seq<u128>,
        id: u128,
    ) -> ProxyStepView {
        if credential is Missing {
            match self.proxy_outcome(service, request, walk, id) {
                Ok(reply) => ProxyStepView::Reply { reply },
                Err(error) => ProxyStepView::Refuse { error },
            }
        } else {
            ProxyStepView::Pay { step: self.paid_proxy_run(service, request, credential) }
        }
    }

    /// The state after the first step of a run through the proxy.
    pub open spec fn after_proxy_step(
        self,
        service: Seq<char>,
        request: ServiceRunRequest,
        credential: PaymentCredential,
        walk: Seq<u128>,
        id: u128,
        now: Timestamp,
    ) -> AppStateView {
        if credential is Missing {
            self.after_proxy(service, request, walk, id, now)
        } else {
            self
        }
    }
}

/// Whether two lists have a text in common.
fn lists_share_a_text(a: &Vec<String>, b: &Vec<String>) -> (r: bool)
    ensures
        r == share_a_text(texts(a@), texts(b@)),
{
    let mut i: usize = 0;
    while i < a.len()
        invariant
            i <= a.len(),
            forall|m: int, n: int|
                0 <= m < i && 0 <= n < b@.len() ==> #[trigger] texts(a@)[m]
                    != #[trigger] texts(b@)[n],
        decreases a.len() - i,
    {
        let mut j: usize = 0;
        while j < b.len()
            invariant
                i < a.len(),
                j <= b.len(),
                forall|n: int| 0 <= n < j ==> texts(a@)[i as int] != #[trigger] texts(b@)[n],
            decreases b.len() - j,
        {
            if same_text(a[i].as_str(), b[j].as_str()) {
                assert(texts(a@)[i as int] == texts(b@)[j as int]);
                return true;
            }
            j = j + 1;
        }
        i = i + 1;
    }
    false
}

/// Whether a campaign targets a user.
pub fn user_matches_campaign(user: &UserProfile, campaign: &Campaign) -> (r: bool)
    ensures
        r == targets(campaign@, user@),
{
    (campaign.target_roles.len() == 0 || lists_share_a_text(&campaign.target_roles, &user.roles))
        && (campaign.target_tools.len() == 0 || lists_share_a_text(
        &campaign.target_tools,
        &user.tools_used,
    ))
}

impl AppState {
    /// Whether a user completed a task of a campaign.
    pub fn has_completed_task(&self, campaign_id: u128, user_id: u128, task: &str) -> (r: bool)
        ensures
            r == task_done(self@.task_completions, campaign_id, user_id, task@),
    {
        let ghost completions = self@.task_completions;
        let mut i: usize = 0;
        while i < self.task_completions.len()
            invariant
                i <= self.task_completions.len(),
                completions == self@.task_completions,
                forall|j: int|
                    0 <= j < i ==> !#[trigger] is_completion(
                        completions,
                        j,
                        campaign_id,
                        user_id,
                        task@,
                    ),
            decreases self.task_completions.len() - i,
        {
            assert(completions[i as int] == self.task_completions@[i as int]@);
            if self.task_completions[i].campaign_id == campaign_id
                && self.task_completions[i].user_id == user_id && same_text(
                self.task_completions[i].task_name.as_str(),
                task,
            ) {
                assert(is_completion(completions, i as int, campaign_id, user_id, task@));
                return true;
            }
            i = i + 1;
        }
        false
    }

    /// Who pays for a user's call, when the campaigns are walked in an order.
    fn choose_sponsor(&self, user: &UserProfile, price: u64, walk: &Vec<u128>) -> (r: (
        Option<u128>,
        Option<u128>,
    ))
        requires
            self.well_formed(),
            self@.users.contains_key(user.id),
            self@.users[user.id] == user@,
            forall|i: int|
                0 <= i < walk@.len() ==> self@.campaigns.contains_key(#[trigger] walk@[i]),
        ensures
            r.0 == first_where(walk@, |id: u128| self@.ready(id, user.id, price)),
            r.0 is None ==> r.1 == first_where(
                walk@,
                |id: u128| self@.eligible(id, user.id, price),
            ),
            r.0 matches Some(id) ==> walk@.contains(id) && self@.ready(id, user.id, price),
            r.1 matches Some(id) ==> walk@.contains(id) && self@.eligible(id, user.id, price),
    {
        let ghost is_ready = |id: u128| self@.ready(id, user.id, price);
        let ghost is_eligible = |id: u128| self@.eligible(id, user.id, price);
        let mut without_task: Option<u128> = None;
        let mut k: usize = 0;
        assert(walk@.skip(0) =~= walk@);
        while k < walk.len()
            invariant
                k <= walk.len(),
                self.well_formed(),
                self@.users[user.id] == user@,
                forall|i: int|
                    0 <= i < walk@.len() ==> self@.campaigns.contains_key(#[trigger] walk@[i]),
                is_ready == (|id: u128| self@.ready(id, user.id, price)),
                is_eligible == (|id: u128| self@.eligible(id, user.id, price)),
                first_where(walk@, is_ready) == first_where(walk@.skip(k as int), is_ready),
                match without_task {
                    None => first_where(walk@, is_eligible) == first_where(
                        walk@.skip(k as int),
                        is_eligible,
                    ),
                    Some(id) => first_where(walk@, is_eligible) == Some(id) && walk@.contains(id)
                        && self@.eligible(id, user.id, price),
                },
            decreases walk.len() - k,
        {
            let id: u128 = walk[k];
            let ghost rest = walk@.skip(k as int);
            assert(rest[0] == id);
            assert(rest.drop_first() =~= walk@.skip(k + 1));
            assert(walk@.contains(id));
            match self.campaigns.get(&id) {
                Some(campaign) => {
                    assert(self@.campaigns[id] == campaign@);
                    if campaign.active && campaign.budget_remaining_cents >= price
                        && user_matches_campaign(user, campaign) {
                        if self.has_completed_task(id, user.id, campaign.required_task.as_str()) {
                            return (Some(id), without_task);
                        }
                        if without_task.is_none() {
                            without_task = Some(id);
                        }
                    }
                },
                None => vstd::pervasive::unreached(),
            }
            k = k + 1;
        }
        (None, without_task)
    }

    /// Has a campaign pay for a call, under the identifier of its transaction. It gives the
    /// sponsor and the transaction.
    fn charge_campaign(
        &mut self,
        campaign_id: u128,
        service: &str,
        id: u128,
        now: Timestamp,
    ) -> (r: (String, String))
        requires
            old(self).well_formed(),
            old(self)@.campaigns.contains_key(campaign_id),
            old(self)@.campaigns[campaign_id].budget_remaining_cents >= old(self)@.price(service@),
        ensures
            final(self).well_formed(),
            final(self)@ == old(self)@.with_sponsored_call(campaign_id, service@, id, now),
            r.0@ == old(self)@.campaigns[campaign_id].sponsor,
            r.1@ == sponsor_tx_hash(id),
    {
        let price: u64 = self.service_price(service);
        let mut campaign: Campaign = match self.campaigns.get(&campaign_id) {
            Some(campaign) => campaign.clone(),
            None => vstd::pervasive::unreached(),
        };
        assert(campaign@ == old(self)@.campaigns[campaign_id]);
        let sponsor: String = campaign.sponsor.clone();
        campaign.budget_remaining_cents = campaign.budget_remaining_cents.saturating_sub(price);
        if campaign.budget_remaining_cents == 0 {
            campaign.active = false;
        }
        assert(campaign@ == debited(old(self)@.campaigns[campaign_id], price));
        self.campaigns.insert(campaign_id, campaign);
        assert(self@.campaigns =~= old(self)@.campaigns.insert(campaign_id, campaign@));
        let mut tx_hash: String = "sponsor-".to_owned();
        tx_hash.append(print_id(id).as_str());
        self.record_payment(
            PaymentRecord {
                tx_hash: tx_hash.clone(),
                campaign_id: Some(campaign_id),
                service: service.to_owned(),
                amount_cents: price,
                payer: sponsor.clone(),
                source: PaymentSource::Sponsor,
                status: PaymentStatus::Settled,
                created_at: now,
            },
        );
        self.metrics.mark_payment("sponsored", "settled");
        self.metrics.add_sponsor_spend(price);
        (sponsor, tx_hash)
    }

    /// Runs a service through the proxy for a request without a payment header: when the
    /// campaigns are walked in an order, and under the identifier of the payment that may come of
    /// it.
    pub fn run_sponsored_proxy_as(
        &mut self,
        service: String,
        payload: ServiceRunRequest,
        walk: &Vec<u128>,
        id: u128,
        now: Timestamp,
    ) -> (r: ApiResult<PaidReply>)
        requires
            old(self).well_formed(),
            lists_keys(walk@, old(self)@.campaigns),
        ensures
            final(self).well_formed(),
            outcome_view(r) == old(self)@.proxy_outcome(service@, payload, walk@, id),
            final(self)@ == old(self)@.after_proxy(service@, payload, walk@, id, now),
    {
        let price: u64 = self.service_price(service.as_str());
        let choice: (Option<u128>, Option<u128>) = match self.users.get(&payload.user_id) {
            Some(user) => {
                assert(self@.users.contains_key(payload.user_id));
                assert(self@.users[payload.user_id] == user@);
                assert forall|i: int| 0 <= i < walk@.len() implies self@.campaigns.contains_key(
                    #[trigger] walk@[i],
                ) by {
                    assert(walk@.to_set().contains(walk@[i]));
                }
                self.choose_sponsor(user, price, walk)
            },
            None => {
                return Err(ApiError::not_found("user profile is required before proxy usage"));
            },
        };
        match choice {
            (Some(campaign_id), _) => {
                assert(walk@.to_set().contains(campaign_id));
                let (sponsor, tx_hash) = self.charge_campaign(
                    campaign_id,
                    service.as_str(),
                    id,
                    now,
                );
                Ok(
                    build_paid_tool_response(
                        service,
                        payload,
                        "sponsored",
                        Some(sponsor),
                        Some(tx_hash),
                        &None,
                    ),
                )
            },
            (None, Some(campaign_id)) => {
                assert(walk@.to_set().contains(campaign_id));
                match self.campaigns.get(&campaign_id) {
                    Some(campaign) => {
                        let mut message: String = "complete sponsor task '".to_owned();
                        message.append(campaign.required_task.as_str());
                        message.append("' for campaign '");
                        message.append(campaign.name.as_str());
                        message.append("' before sponsored usage");
                        Err(ApiError::precondition(message.as_str()))
                    },
                    None => vstd::pervasive::unreached(),
                }
            },
            (None, None) => Err(
                payment_required_error(
                    service.as_str(),
                    price,
                    "no eligible sponsor campaign found",
                    "either complete a sponsor task or pay with PAYMENT-SIGNATURE",
                ),
            ),
        }
    }

    /// Runs a service through the proxy for a request without a payment header. The campaigns are
    /// walked in the order in which their map hands them out.
    pub fn run_sponsored_proxy(&mut self, service: String, payload: ServiceRunRequest) -> (r:
        ApiResult<PaidReply>)
        requires
            old(self).well_formed(),
        ensures
            final(self).well_formed(),
            exists|walk: Seq<u128>, id: u128, now: Timestamp|
                {
                    &&& lists_keys(walk, old(self)@.campaigns)
                    &&& is_random_uuid(id)
                    &&& outcome_view(r) == old(self)@.proxy_outcome(service@, payload, walk, id)
                    &&& final(self)@ == #[trigger] old(self)@.after_proxy(
                        service@,
                        payload,
                        walk,
                        id,
                        now,
                    )
                },
    {
        let walk: Vec<u128> = keys_of(&self.campaigns);
        let id: u128 = fresh_id();
        let now: Timestamp = utc_now();
        assert(self@.campaigns.dom() =~= self.campaigns@.dom());
        self.run_sponsored_proxy_as(service, payload, &walk, id, now)
    }

    /// Starts the run of a service through the proxy: its user pays where the request holds a
    /// payment header, and a sponsor otherwise. The campaigns are walked in an order, and a
    /// sponsor's payment goes under an identifier.
    pub fn run_proxy_as(
        &mut self,
        service: String,
        payload: ServiceRunRequest,
        credential: &PaymentCredential,
        walk: &Vec<u128>,
        id: u128,
        now: Timestamp,
    ) -> (r: ProxyStep)
        requires
            old(self).well_formed(),
            lists_keys(walk@, old(self)@.campaigns),
        ensures
            final(self).well_formed(),
            r@ == old(self)@.proxy_step(service@, payload, *credential, walk@, id),
            final(self)@ == old(self)@.after_proxy_step(
                service@,
                payload,
                *credential,
                walk@,
                id,
                now,
            ),
    {
        match credential {
            PaymentCredential::Missing => match self.run_sponsored_proxy_as(
                service,
                payload,
                walk,
                id,
                now,
            ) {
                Ok(reply) => ProxyStep::Reply { reply },
                Err(error) => ProxyStep::Refuse { error },
            },
            _ => ProxyStep::Pay { step: self.run_paid_proxy(service, payload, credential) },
        }
    }

    /// Starts the run of a service through the proxy: its user pays where the request holds a
    /// payment header, and a sponsor otherwise.
    pub fn run_proxy(
        &mut self,
        service: String,
        payload: ServiceRunRequest,
        credential: &PaymentCredential,
    ) -> (r: ProxyStep)
        requires
            old(self).well_formed(),
        ensures
            final(self).well_formed(),
            exists|walk: Seq<u128>, id: u128, now: Timestamp|
                {
                    &&& lists_keys(walk, old(self)@.campaigns)
                    &&& is_random_uuid(id)
                    &&& r@ == old(self)@.proxy_step(service@, payload, *credential, walk, id)
                    &&& final(self)@ == #[trigger] old(self)@.after_proxy_step(
                        service@,
                        payload,
                        *credential,
                        walk,
                        id,
                        now,
                    )
                },
    {
        let walk: Vec<u128> = keys_of(&self.campaigns);
        let id: u128 = fresh_id();
        let now: Timestamp = utc_now();
        assert(self@.campaigns.dom() =~= self.campaigns@.dom());
        self.run_proxy_as(service, payload, credential, &walk, id, now)
    }
}

} // verus!
