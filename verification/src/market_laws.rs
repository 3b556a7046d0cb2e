//! What users, campaigns, tasks and calls through the proxy come to, by what they hold.

use vstd::prelude::*;

use crate::error::ApiErrorView;
use crate::ids::uuid_text;
use crate::laws::law_sponsor_choice_in_any_order;
use crate::listing::lists_keys;
use crate::metrics::{counted, with_count};
use crate::payments::{PaidReplyView, PaymentCredential};
use crate::proxy::{first_where, is_completion, sponsor_tx_hash, task_done, ProxyStepView};
use crate::state::{has_payment, AppStateView};
use crate::types::{
    PaymentSource, PaymentStatus, ServiceRunRequest, TaskCompletionView, Timestamp,
};

verus! {

/// The key that a walk finds has the property, and none before it has.
proof fn lemma_found_first(walk: Seq<u128>, wanted: spec_fn(u128) -> bool)
    ensures
        match first_where(walk, wanted) {
            Some(id) => exists|n: int|
                0 <= n < walk.len() && #[trigger] walk[n] == id && wanted(id) && forall|m: int|
                    0 <= m < n ==> !wanted(#[trigger] walk[m]),
            None => forall|m: int| 0 <= m < walk.len() ==> !wanted(#[trigger] walk[m]),
        },
    decreases walk.len(),
{
    if walk.len() > 0 {
        let rest = walk.drop_first();
        lemma_found_first(rest, wanted);
        if wanted(walk[0]) {
            assert(walk[0] == walk[0]);
        } else {
            match first_where(rest, wanted) {
                Some(id) => {
                    let n = choose|n: int|
                        0 <= n < rest.len() && #[trigger] rest[n] == id && wanted(id) && forall|
                            m: int,
                        |
                            0 <= m < n ==> !wanted(#[trigger] rest[m]);
                    assert forall|m: int| 0 <= m < n + 1 implies !wanted(#[trigger] walk[m]) by {
                        if m > 0 {
                            assert(rest[m - 1] == walk[m]);
                        }
                    }
                    assert(walk[n + 1] == id);
                },
                None => {
                    assert forall|m: int| 0 <= m < walk.len() implies !wanted(
                        #[trigger] walk[m],
                    ) by {
                        if m > 0 {
                            assert(rest[m - 1] == walk[m]);
                        }
                    }
                },
            }
        }
    }
}

/// A call through the proxy without a payment header succeeds where a campaign is active, has the
/// price left, targets the user by a role and by a tool where it names any, and this user
/// completed its task: the first such campaign of the walk pays, and the reply names its sponsor.
/// Where none is such a campaign but for the task, the user is told to do the task of the first of
/// them. Where there is none at all, the user is told to pay the price. A user that is not known
/// is told so.
pub proof fn law_who_pays_for_a_proxy_run(
    state: AppStateView,
    service: Seq<char>,
    request: ServiceRunRequest,
    walk: Seq<u128>,
    id: u128,
)
    ensures
        ({
            let price = state.price(service);
            let user = state.users[request.user_id];
            let may_pay = |c: u128|
                {
                    let campaign = state.campaigns[c];
                    &&& campaign.active
                    &&& campaign.budget_remaining_cents >= price
                    &&& campaign.target_roles.len() == 0 || exists|i: int, j: int|
                        0 <= i < campaign.target_roles.len() && 0 <= j < user.roles.len()
                            && #[trigger] campaign.target_roles[i] == #[trigger] user.roles[j]
                    &&& campaign.target_tools.len() == 0 || exists|i: int, j: int|
                        0 <= i < campaign.target_tools.len() && 0 <= j < user.tools_used.len()
                            && #[trigger] campaign.target_tools[i] == #[trigger] user.tools_used[j]
                };
            let task_is_done = |c: u128|
                exists|k: int|
                    0 <= k < state.task_completions.len() && (
                    #[trigger] state.task_completions[k]).user_id == request.user_id
                        && state.task_completions[k].campaign_id == c
                        && state.task_completions[k].task_name == state.campaigns[c].required_task;
            match state.proxy_outcome(service, request, walk, id) {
                Ok(reply) => {
                    &&& state.users.contains_key(request.user_id)
                    &&& reply.body.service == service
                    &&& reply.body.payment_mode == "sponsored"@
                    &&& exists|n: int|
                        {
                            &&& 0 <= n < walk.len()
                            &&& may_pay(#[trigger] walk[n])
                            &&& task_is_done(walk[n])
                            &&& reply.body.sponsored_by == Some(state.campaigns[walk[n]].sponsor)
                            &&& forall|m: int|
                                0 <= m < n ==> !(may_pay(#[trigger] walk[m]) && task_is_done(
                                    walk[m],
                                ))
                        }
                },
                Err(ApiErrorView::NotFound { message }) => {
                    &&& !state.users.contains_key(request.user_id)
                    &&& message == "user profile is required before proxy usage"@
                },
                Err(ApiErrorView::Precondition { message }) => {
                    &&& state.users.contains_key(request.user_id)
                    &&& exists|n: int|
                        {
                            &&& 0 <= n < walk.len()
                            &&& may_pay(#[trigger] walk[n])
                            &&& forall|m: int| 0 <= m < n ==> !may_pay(#[trigger] walk[m])
                            &&& message == "complete sponsor task '"@
                                + state.campaigns[walk[n]].required_task + "' for campaign '"@
                                + state.campaigns[walk[n]].name + "' before sponsored usage"@
                        }
                    &&& forall|m: int|
                        0 <= m < walk.len() && may_pay(#[trigger] walk[m]) ==> !task_is_done(
                            walk[m],
                        )
                },
                Err(ApiErrorView::Payment { required }) => {
                    &&& state.users.contains_key(request.user_id)
                    &&& forall|m: int| 0 <= m < walk.len() ==> !may_pay(#[trigger] walk[m])
                    &&& required.service == service
                    &&& required.amount_cents == price
                    &&& required.accepted_header == "payment-signature"@
                    &&& required.message == "no eligible sponsor campaign found"@
                    &&& required.next_step
                        == "either complete a sponsor task or pay with PAYMENT-SIGNATURE"@
                },
                Err(_) => false,
            }
        }),
{
    let price = state.price(service);
    let user_id = request.user_id;
    lemma_found_first(walk, |c: u128| state.ready(c, user_id, price));
    lemma_found_first(walk, |c: u128| state.eligible(c, user_id, price));
    assert forall|c: u128|
        task_done(
            state.task_completions,
            c,
            user_id,
            state.campaigns[c].required_task,
        ) == exists|k: int|
            0 <= k < state.task_completions.len() && (#[trigger] state.task_completions[k]).user_id
                == request.user_id && state.task_completions[k].campaign_id == c
                && state.task_completions[k].task_name == state.campaigns[c].required_task by {
        let task = state.campaigns[c].required_task;
        if task_done(state.task_completions, c, user_id, task) {
            let k = choose|k: int| #[trigger]
                is_completion(state.task_completions, k, c, user_id, task);
            assert(state.task_completions[k].user_id == user_id);
        }
        if exists|k: int|
            0 <= k < state.task_completions.len() && (#[trigger] state.task_completions[k]).user_id
                == request.user_id && state.task_completions[k].campaign_id == c
                && state.task_completions[k].task_name == state.campaigns[c].required_task {
            let k = choose|k: int|
                0 <= k < state.task_completions.len() && (
                #[trigger] state.task_completions[k]).user_id == request.user_id
                    && state.task_completions[k].campaign_id == c
                    && state.task_completions[k].task_name == state.campaigns[c].required_task;
            assert(is_completion(state.task_completions, k, c, user_id, task));
        }
    }
}

/// A user is sponsored where any campaign is active, has the price left, targets the user and
/// waits for nothing but a task that this user completed, in whatever order the campaigns are
/// walked.
pub proof fn law_qualified_user_is_sponsored(
    state: AppStateView,
    service: Seq<char>,
    request: ServiceRunRequest,
    walk: Seq<u128>,
    id: u128,
    payer: u128,
    role: (int, int),
    tool: (int, int),
    done: int,
)
    requires
        lists_keys(walk, state.campaigns),
        state.users.contains_key(request.user_id),
        state.campaigns.contains_key(payer),
        state.campaigns[payer].active,
        state.campaigns[payer].budget_remaining_cents >= state.price(service),
        state.campaigns[payer].target_roles.len() == 0 || {
            &&& 0 <= role.0 < state.campaigns[payer].target_roles.len()
            &&& 0 <= role.1 < state.users[request.user_id].roles.len()
            &&& state.campaigns[payer].target_roles[role.0]
                == state.users[request.user_id].roles[role.1]
        },
        state.campaigns[payer].target_tools.len() == 0 || {
            &&& 0 <= tool.0 < state.campaigns[payer].target_tools.len()
            &&& 0 <= tool.1 < state.users[request.user_id].tools_used.len()
            &&& state.campaigns[payer].target_tools[tool.0]
                == state.users[request.user_id].tools_used[tool.1]
        },
        0 <= done < state.task_completions.len(),
        state.task_completions[done].user_id == request.user_id,
        state.task_completions[done].campaign_id == payer,
        state.task_completions[done].task_name == state.campaigns[payer].required_task,
    ensures
        state.proxy_outcome(service, request, walk, id) is Ok,
{
    law_who_pays_for_a_proxy_run(state, service, request, walk, id);
    assert(walk.to_set().contains(payer));
    let n = choose|n: int| 0 <= n < walk.len() && walk[n] == payer;
    assert(walk[n] == payer);
}

/// No campaign pays for a user who completed no task: nothing is charged, and nothing is recorded.
pub proof fn law_no_task_no_sponsor(
    state: AppStateView,
    service: Seq<char>,
    request: ServiceRunRequest,
    walk: Seq<u128>,
    id: u128,
    now: Timestamp,
)
    requires
        forall|i: int|
            0 <= i < state.task_completions.len() ==> (#[trigger] state.task_completions[i]).user_id
                != request.user_id,
    ensures
        state.proxy_outcome(service, request, walk, id) is Err,
        state.after_proxy(service, request, walk, id, now) == state,
{
    law_who_pays_for_a_proxy_run(state, service, request, walk, id);
}

/// A task that one user completes changes nothing for the calls of another.
pub proof fn law_task_counts_for_its_user_alone(
    state: AppStateView,
    completion: TaskCompletionView,
    service: Seq<char>,
    request: ServiceRunRequest,
    walk: Seq<u128>,
    id: u128,
)
    requires
        request.user_id != completion.user_id,
    ensures
        state.with_completion(completion).proxy_outcome(service, request, walk, id)
            == state.proxy_outcome(service, request, walk, id),
        state.with_completion(completion).paying_campaign(service, request, walk)
            == state.paying_campaign(service, request, walk),
{
    let after = state.with_completion(completion);
    let user = request.user_id;
    let price = state.price(service);
    assert forall|c: u128| after.ready(c, user, price) == state.ready(c, user, price) by {
        let task = state.campaigns[c].required_task;
        if state.ready(c, user, price) {
            let k = choose|k: int| #[trigger]
                is_completion(state.task_completions, k, c, user, task);
            assert(is_completion(after.task_completions, k, c, user, task));
        }
        if after.ready(c, user, price) {
            let k = choose|k: int| #[trigger]
                is_completion(after.task_completions, k, c, user, task);
            assert(is_completion(state.task_completions, k, c, user, task));
        }
    }
    assert((|c: u128| after.ready(c, user, price)) =~= (|c: u128| state.ready(c, user, price)));
    assert((|c: u128| after.eligible(c, user, price)) =~= (|c: u128|
        state.eligible(c, user, price)));
}

/// A task that was completed for another campaign, or under another name than the campaign asks
/// for, does not make a campaign pay: whoever pays for a call had its own task completed by the
/// user of the call.
pub proof fn law_payer_had_its_task_completed(
    state: AppStateView,
    service: Seq<char>,
    request: ServiceRunRequest,
    walk: Seq<u128>,
    payer: u128,
)
    requires
        state.paying_campaign(service, request, walk) == Some(payer),
    ensures
        walk.contains(payer),
        state.users.contains_key(request.user_id),
        state.campaigns[payer].active,
        state.campaigns[payer].budget_remaining_cents >= state.price(service),
        exists|k: int|
            0 <= k < state.task_completions.len() && (#[trigger] state.task_completions[k]).user_id
                == request.user_id && state.task_completions[k].campaign_id == payer
                && state.task_completions[k].task_name == state.campaigns[payer].required_task,
{
    let price = state.price(service);
    lemma_found_first(walk, |c: u128| state.ready(c, request.user_id, price));
    let task = state.campaigns[payer].required_task;
    let k = choose|k: int| #[trigger]
        is_completion(state.task_completions, k, payer, request.user_id, task);
    assert(state.task_completions[k].user_id == request.user_id);
}

/// A call through the proxy that a campaign pays for takes the price from that campaign, which
/// goes on as long as anything is left. The payment is recorded under a transaction of its own,
/// and counted. Nothing else changes, and a call that is refused changes nothing at all.
pub proof fn law_what_a_proxy_run_changes(
    state: AppStateView,
    service: Seq<char>,
    request: ServiceRunRequest,
    walk: Seq<u128>,
    id: u128,
    now: Timestamp,
)
    requires
        state.consistent(),
        lists_keys(walk, state.campaigns),
        forall|i: int|
            0 <= i < state.payments.len() ==> (#[trigger] state.payments[i]).tx_hash != "sponsor-"@
                + uuid_text(id),
    ensures
        ({
            let after = state.after_proxy(service, request, walk, id, now);
            let price = state.price(service);
            match state.proxy_outcome(service, request, walk, id) {
                Ok(reply) => {
                    &&& reply.body.tx_hash == Some("sponsor-"@ + uuid_text(id))
                    &&& exists|payer: u128|
                        {
                            let before = state.campaigns[payer];
                            let left = after.campaigns[payer];
                            let record = after.payments.last();
                            &&& #[trigger] state.campaigns.contains_key(payer)
                            &&& state.paying_campaign(service, request, walk) == Some(payer)
                            &&& reply.body.sponsored_by == Some(before.sponsor)
                            &&& left.budget_remaining_cents + price == before.budget_remaining_cents
                            &&& left.active == (left.budget_remaining_cents > 0)
                            &&& left.id == before.id
                            &&& left.name == before.name
                            &&& left.sponsor == before.sponsor
                            &&& left.target_roles == before.target_roles
                            &&& left.target_tools == before.target_tools
                            &&& left.required_task == before.required_task
                            &&& left.subsidy_per_call_cents == before.subsidy_per_call_cents
                            &&& left.created_at == before.created_at
                            &&& forall|other: u128|
                                other != payer ==> #[trigger] after.campaigns[other]
                                    == state.campaigns[other]
                            &&& record.tx_hash == "sponsor-"@ + uuid_text(id)
                            &&& record.campaign_id == Some(payer)
                            &&& record.payer == before.sponsor
                            &&& record.service == service
                            &&& record.amount_cents == price
                            &&& record.source == PaymentSource::Sponsor
                            &&& record.status == PaymentStatus::Settled
                            &&& record.created_at == now
                        }
                    &&& after.campaigns.dom() == state.campaigns.dom()
                    &&& after.payments.drop_last() == state.payments
                    &&& after.users == state.users
                    &&& after.task_completions == state.task_completions
                    &&& after.creator_events == state.creator_events
                    &&& after.service_prices == state.service_prices
                    &&& after.config == state.config
                    &&& after.metrics.http_requests == state.metrics.http_requests
                    &&& after.metrics.creator_events == state.metrics.creator_events
                    &&& after.metrics.payment_events == with_count(
                        state.metrics.payment_events,
                        seq!["sponsored"@, "settled"@],
                    )
                    &&& after.metrics.sponsor_spend_cents == counted(
                        state.metrics.sponsor_spend_cents,
                        price,
                    )
                },
                Err(_) => after == state,
            }
        }),
{
    let price = state.price(service);
    law_sponsor_choice_in_any_order(state, request.user_id, price, walk);
    if let Some(payer) = state.paying_campaign(service, request, walk) {
        let after = state.after_proxy(service, request, walk, id, now);
        assert(state.campaigns.contains_key(payer));
        assert(after.campaigns.dom() =~= state.campaigns.dom());
        assert(!has_payment(state.payments, sponsor_tx_hash(id)));
        assert(after.payments.drop_last() =~= state.payments);
    }
}

/// A request that holds a payment header is left to its user, whatever campaigns there are, and
/// charges none; one that holds none is never.
pub proof fn law_header_decides_who_pays(
    state: AppStateView,
    service: Seq<char>,
    request: ServiceRunRequest,
    credential: PaymentCredential,
    walk: Seq<u128>,
    id: u128,
    now: Timestamp,
)
    ensures
        (state.proxy_step(service, request, credential, walk, id) is Pay) == !(credential matches
            PaymentCredential::Missing),
        state.proxy_step(service, request, credential, walk, id) matches ProxyStepView::Pay { step }
            ==> step == state.paid_proxy_run(service, request, credential),
        state.proxy_step(service, request, credential, walk, id) matches ProxyStepView::Reply {
            reply,
        } ==> state.proxy_outcome(service, request, walk, id) == Ok::<PaidReplyView, ApiErrorView>(
            reply,
        ),
        state.proxy_step(service, request, credential, walk, id) matches ProxyStepView::Refuse {
            error,
        } ==> state.proxy_outcome(service, request, walk, id) == Err::<PaidReplyView, ApiErrorView>(
            error,
        ),
        !(credential matches PaymentCredential::Missing) ==> state.after_proxy_step(
            service,
            request,
            credential,
            walk,
            id,
            now,
        ) == state,
        credential matches PaymentCredential::Missing ==> state.after_proxy_step(
            service,
            request,
            credential,
            walk,
            id,
            now,
        ) == state.after_proxy(service, request, walk, id, now),
{
}

} // verus!
