//! What sponsors and creators are shown.

use vstd::prelude::*;

use crate::error::{not_found_error, outcome_view, ApiError, ApiErrorView, ApiResult};
use crate::state::{AppState, AppStateView};
use crate::types::{
    Campaign, CampaignView, PaymentRecordView, PaymentSource, PaymentStatus, TaskCompletionView,
};

verus! {

broadcast use vstd::std_specs::hash::group_hash_axioms;

/// What a sponsor is shown of a campaign.
#[derive(Debug)]
pub struct SponsorDashboard {
    pub campaign: Campaign,
    pub tasks_completed: usize,
    pub sponsored_calls: usize,
    pub spend_cents: u64,
    pub remaining_budget_cents: u64,
}

/// The contents of a `SponsorDashboard`.
pub struct SponsorDashboardView {
    pub campaign: CampaignView,
    pub tasks_completed: nat,
    pub sponsored_calls: nat,
    pub spend_cents: nat,
    pub remaining_budget_cents: u64,
}

impl View for SponsorDashboard {
    type V = SponsorDashboardView;

    open spec fn view(&self) -> SponsorDashboardView {
        SponsorDashboardView {
            campaign: self.campaign@,
            tasks_completed: self.tasks_completed as nat,
            sponsored_calls: self.sponsored_calls as nat,
            spend_cents: self.spend_cents as nat,
            remaining_budget_cents: self.remaining_budget_cents,
        }
    }
}

/// The completions of a campaign's tasks.
pub open spec fn completions_of(
    completions: Seq<TaskCompletionView>,
    campaign_id: u128,
) -> Seq<TaskCompletionView> {
    completions.filter(|completion: TaskCompletionView| completion.campaign_id == campaign_id)
}

/// Whether a campaign made a payment.
pub open spec fn paid_by(record: PaymentRecordView, campaign_id: u128) -> bool {
    &&& record.campaign_id == Some(campaign_id)
    &&& record.source == PaymentSource::Sponsor
    &&& record.status == PaymentStatus::Settled
}

/// The payments that a campaign made.
pub open spec fn payments_of(payments: Seq<PaymentRecordView>, campaign_id: u128) -> Seq<
    PaymentRecordView,
> {
    payments.filter(|record: PaymentRecordView| paid_by(record, campaign_id))
}

/// What payments add up to.
pub open spec fn total_cents(payments: Seq<PaymentRecordView>) -> nat
    decreases payments.len(),
{
    if payments.len() == 0 {
        0
    } else {
        total_cents(payments.drop_last()) + payments.last().amount_cents as nat
    }
}

impl AppStateView {
    /// What a campaign has spent.
    pub open spec fn spent(self, campaign_id: u128) -> nat {
        total_cents(payments_of(self.payments, campaign_id))
    }

    /// What a sponsor is shown of a campaign, where it exists.
    pub open spec fn dashboard(self, campaign_id: u128) -> Result<
        SponsorDashboardView,
        ApiErrorView,
    > {
        if !self.campaigns.contains_key(campaign_id) {
            Err(not_found_error("campaign not found"@))
        } else {
            Ok(
                SponsorDashboardView {
                    campaign: self.campaigns[campaign_id],
                    tasks_completed: completions_of(self.task_completions, campaign_id).len(),
                    sponsored_calls: payments_of(self.payments, campaign_id).len(),
                    spend_cents: self.spent(campaign_id),
                    remaining_budget_cents: self.campaigns[campaign_id].budget_remaining_cents,
                },
            )
        }
    }
}

/// One more element behind a list adds at most itself to what a filter keeps.
pub(crate) proof fn lemma_filter_push<T>(list: Seq<T>, last: T, keep: spec_fn(T) -> bool)
    ensures
        list.push(last).filter(keep) == if keep(last) {
            list.filter(keep).push(last)
        } else {
            list.filter(keep)
        },
{
    reveal(Seq::filter);
    assert(list.push(last).drop_last() =~= list);
}

/// What a filter keeps of a list up to an index and of the element there.
proof fn lemma_filter_next<T>(list: Seq<T>, i: int, keep: spec_fn(T) -> bool)
    requires
        0 <= i < list.len(),
    ensures
        list.take(i + 1).filter(keep) == if keep(list[i]) {
            list.take(i).filter(keep).push(list[i])
        } else {
            list.take(i).filter(keep)
        },
        list.take(i).filter(keep).len() <= i,
{
    assert(list.take(i + 1) =~= list.take(i).push(list[i]));
    lemma_filter_push(list.take(i), list[i], keep);
    list.take(i).lemma_filter_len(keep);
}

impl AppState {
    /// How many tasks of a campaign were completed.
    fn count_completions(&self, campaign_id: u128) -> (r: usize)
        ensures
            r == completions_of(self@.task_completions, campaign_id).len(),
    {
        let ghost list = self@.task_completions;
        let ghost keep = |completion: TaskCompletionView| completion.campaign_id == campaign_id;
        let mut count: usize = 0;
        let mut i: usize = 0;
        proof {
            reveal(Seq::filter);
        }
        while i < self.task_completions.len()
            invariant
                i <= self.task_completions.len(),
                list == self@.task_completions,
                keep == (|completion: TaskCompletionView| completion.campaign_id == campaign_id),
                count == list.take(i as int).filter(keep).len(),
            decreases self.task_completions.len() - i,
        {
            proof {
                lemma_filter_next(list, i as int, keep);
                assert(list[i as int] == self.task_completions@[i as int]@);
            }
            if self.task_completions[i].campaign_id == campaign_id {
                count = count + 1;
            }
            i = i + 1;
        }
        assert(list.take(list.len() as int) =~= list);
        count
    }

    /// How many payments a campaign made, and what they add up to.
    pub fn sponsored_spend(&self, campaign_id: u128) -> (r: (usize, u128))
        ensures
            r.0 == payments_of(self@.payments, campaign_id).len(),
            r.1 == self@.spent(campaign_id),
    {
        let ghost list = self@.payments;
        let ghost keep = |record: PaymentRecordView| paid_by(record, campaign_id);
        let mut count: usize = 0;
        let mut sum: u128 = 0;
        let mut i: usize = 0;
        proof {
            reveal(Seq::filter);
        }
        while i < self.payments.len()
            invariant
                i <= self.payments.len(),
                list == self@.payments,
                keep == (|record: PaymentRecordView| paid_by(record, campaign_id)),
                count == list.take(i as int).filter(keep).len(),
                count <= i,
                sum == total_cents(list.take(i as int).filter(keep)),
                sum <= count * u64::MAX,
            decreases self.payments.len() - i,
        {
            proof {
                lemma_filter_next(list, i as int, keep);
                assert(list[i as int] == self.payments@[i as int]@);
                let kept = list.take(i as int).filter(keep);
                assert(kept.push(list[i as int]).drop_last() =~= kept);
                assert(count * u64::MAX + u64::MAX <= u128::MAX) by (nonlinear_arith)
                    requires
                        0 <= count < usize::MAX,
                        usize::MAX <= 0xffff_ffff_ffff_ffff,
                ;
            }
            if self.payments[i].campaign_id == Some(campaign_id) && self.payments[i].source
                == PaymentSource::Sponsor && self.payments[i].status == PaymentStatus::Settled {
                sum = sum + self.payments[i].amount_cents as u128;
                count = count + 1;
            }
            i = i + 1;
        }
        assert(list.take(list.len() as int) =~= list);
        (count, sum)
    }

    /// What a sponsor is shown of a campaign.
    pub fn sponsor_dashboard(&self, campaign_id: u128) -> (r: ApiResult<SponsorDashboard>)
        requires
            self@.campaigns.contains_key(campaign_id) ==> self@.spent(campaign_id) <= u64::MAX,
        ensures
            outcome_view(r) == self@.dashboard(campaign_id),
    {
        let campaign: Campaign = match self.campaigns.get(&campaign_id) {
            Some(campaign) => campaign.clone(),
            None => {
                return Err(ApiError::not_found("campaign not found"));
            },
        };
        assert(campaign@ == self@.campaigns[campaign_id]);
        let tasks_completed: usize = self.count_completions(campaign_id);
        let (sponsored_calls, spend) = self.sponsored_spend(campaign_id);
        let remaining_budget_cents: u64 = campaign.budget_remaining_cents;
        Ok(
            SponsorDashboard {
                campaign,
                tasks_completed,
                sponsored_calls,
                spend_cents: spend as u64,
                remaining_budget_cents,
            },
        )
    }
}

} // verus!
