//! What holds across requests.

use vstd::prelude::*;

use crate::config::AppConfig;
use crate::error::{ApiErrorView, STATUS_PAYMENT_REQUIRED};
use crate::listing::lists_keys;
use crate::onchain::{block_number_call, receipt_call, NodeCallView, RpcReply};
use crate::paid_runs::PaidRunStepView;
use crate::payments::{
    paid_reply, payment_required, PaidReplyView, PaymentCredential, PaymentQuoteView,
};
use crate::proxy::{first_where, is_completion, sponsor_tx_hash, SponsorChoice};
use crate::reports::{lemma_filter_push, paid_by, payments_of, total_cents};
use crate::sponsored::{SponsoredApiRow, SponsoredApiView};
use crate::sponsored_run::{RunStepView, SponsoredApiRunRequestView};
use crate::state::{distinct_payments, has_payment, with_record, AppStateView};
use crate::testnet::{TestnetPaymentView, TestnetRunView, TestnetStepView};
use crate::types::{
    CreateTestnetPaymentRequest, PaymentProof, PaymentRecordView, PaymentSettlementView,
    PaymentStatus, ServiceRunRequest, TaskCompletionRequest, Timestamp, X402_VERSION,
    X402_VERSION_HEADER,
};
use crate::verification::{
    confirmations, screening, service_mismatch, settlement, ChainCheckView, VerificationStepView,
    VerificationView,
};

verus! {

/// Where a payment is put among the records.
proof fn lemma_record_place(payments: Seq<PaymentRecordView>, record: PaymentRecordView) -> (place:
    int)
    requires
        distinct_payments(payments),
    ensures
        0 <= place <= payments.len(),
        has_payment(payments, record.tx_hash) ==> {
            &&& place < payments.len()
            &&& payments[place].tx_hash == record.tx_hash
            &&& with_record(payments, record) == payments.update(place, record)
        },
        !has_payment(payments, record.tx_hash) ==> {
            &&& place == payments.len()
            &&& with_record(payments, record) == payments.push(record)
        },
{
    if has_payment(payments, record.tx_hash) {
        choose|i: int| 0 <= i < payments.len() && #[trigger] payments[i].tx_hash == record.tx_hash
    } else {
        payments.len() as int
    }
}

/// A payment that was recorded is found under its transaction, and nothing else is.
pub proof fn law_recorded_payment_is_found(
    payments: Seq<PaymentRecordView>,
    record: PaymentRecordView,
)
    requires
        distinct_payments(payments),
    ensures
        with_record(payments, record).contains(record),
        forall|other: PaymentRecordView|
            with_record(payments, record).contains(other) && other.tx_hash == record.tx_hash
                ==> other == record,
{
    let place = lemma_record_place(payments, record);
    let after = with_record(payments, record);
    assert(after[place] == record);
    assert forall|other: PaymentRecordView|
        after.contains(other) && other.tx_hash == record.tx_hash implies other == record by {
        let i = choose|i: int| 0 <= i < after.len() && after[i] == other;
        if i != place {
            assert(after[i] == payments[i]);
            if place < payments.len() {
                assert(payments[i].tx_hash != payments[place].tx_hash);
            }
        }
    }
}

/// To record a payment leaves the payments of other transactions as they were.
pub proof fn law_recording_spares_other_payments(
    payments: Seq<PaymentRecordView>,
    record: PaymentRecordView,
    other: PaymentRecordView,
)
    requires
        distinct_payments(payments),
        other.tx_hash != record.tx_hash,
    ensures
        with_record(payments, record).contains(other) == payments.contains(other),
{
    let place = lemma_record_place(payments, record);
    let after = with_record(payments, record);
    if payments.contains(other) {
        let i = choose|i: int| 0 <= i < payments.len() && payments[i] == other;
        assert(after[i] == other);
    }
    if after.contains(other) {
        let i = choose|i: int| 0 <= i < after.len() && after[i] == other;
        assert(i != place);
        assert(payments[i] == other);
    }
}

/// No transaction is ever recorded twice.
pub proof fn law_recording_keeps_transactions_apart(
    payments: Seq<PaymentRecordView>,
    record: PaymentRecordView,
)
    requires
        distinct_payments(payments),
    ensures
        distinct_payments(with_record(payments, record)),
{
    let place = lemma_record_place(payments, record);
    let after = with_record(payments, record);
    assert forall|i: int, j: int| 0 <= i < j < after.len() implies #[trigger] after[i].tx_hash
        != #[trigger] after[j].tx_hash by {
        if i != place && j != place {
            assert(after[i] == payments[i] && after[j] == payments[j]);
        } else if place < payments.len() {
            assert(payments[i].tx_hash != payments[j].tx_hash);
        } else {
            assert(after[i] == payments[i]);
        }
    }
}

/// Of two records of one transaction the later one alone remains. So a settlement that is reported
/// again changes no record.
pub proof fn law_later_record_replaces_the_earlier(
    payments: Seq<PaymentRecordView>,
    earlier: PaymentRecordView,
    later: PaymentRecordView,
)
    requires
        distinct_payments(payments),
        earlier.tx_hash == later.tx_hash,
    ensures
        with_record(with_record(payments, earlier), later) == with_record(payments, later),
{
    let once = with_record(payments, earlier);
    let place = lemma_record_place(payments, earlier);
    assert(once[place].tx_hash == later.tx_hash);
    law_recording_keeps_transactions_apart(payments, earlier);
    let again = lemma_record_place(once, later);
    assert(again == place);
    let directly = lemma_record_place(payments, later);
    assert(directly == place);
    assert(once.update(place, later) =~= with_record(payments, later));
}

/// A walk finds a key with a property where one is there, and none otherwise.
proof fn lemma_first_where(walk: Seq<u128>, wanted: spec_fn(u128) -> bool)
    ensures
        match first_where(walk, wanted) {
            Some(id) => walk.contains(id) && wanted(id),
            None => forall|id: u128| walk.contains(id) ==> !wanted(id),
        },
    decreases walk.len(),
{
    if walk.len() > 0 {
        let rest = walk.drop_first();
        lemma_first_where(rest, wanted);
        if wanted(walk[0]) {
            assert(walk.contains(walk[0]));
        } else {
            match first_where(rest, wanted) {
                Some(id) => {
                    let i = choose|i: int| 0 <= i < rest.len() && rest[i] == id;
                    assert(walk[i + 1] == id);
                },
                None => {
                    assert forall|id: u128| walk.contains(id) implies !wanted(id) by {
                        let i = choose|i: int| 0 <= i < walk.len() && walk[i] == id;
                        if i > 0 {
                            assert(rest[i - 1] == id);
                            assert(rest.contains(id));
                        }
                    }
                },
            }
        }
    }
}

/// Whether a sponsor pays for a call does not depend on the order in which the campaigns are
/// walked: one does where one is ready; one waits for its task where none is ready but one is
/// eligible.
pub proof fn law_sponsor_choice_in_any_order(
    state: AppStateView,
    user_id: u128,
    price: u64,
    walk: Seq<u128>,
)
    requires
        lists_keys(walk, state.campaigns),
    ensures
        match state.sponsor_choice(user_id, price, walk) {
            SponsorChoice::Ready { campaign_id } => {
                &&& state.campaigns.contains_key(campaign_id)
                &&& state.ready(campaign_id, user_id, price)
            },
            SponsorChoice::NeedsTask { campaign_id } => {
                &&& state.campaigns.contains_key(campaign_id)
                &&& state.eligible(campaign_id, user_id, price)
                &&& forall|id: u128| #[trigger]
                    state.campaigns.contains_key(id) ==> !state.ready(id, user_id, price)
            },
            SponsorChoice::NoSponsor => forall|id: u128| #[trigger]
                state.campaigns.contains_key(id) ==> !state.eligible(id, user_id, price),
        },
{
    let is_ready = |id: u128| state.ready(id, user_id, price);
    let is_eligible = |id: u128| state.eligible(id, user_id, price);
    lemma_first_where(walk, is_ready);
    lemma_first_where(walk, is_eligible);
    assert forall|id: u128| #[trigger] state.campaigns.contains_key(id) implies walk.contains(
        id,
    ) by {
        assert(walk.to_set().contains(id));
    }
    assert forall|id: u128| walk.contains(id) implies state.campaigns.contains_key(id) by {
        assert(walk.to_set().contains(id));
    }
    match state.sponsor_choice(user_id, price, walk) {
        SponsorChoice::Ready { campaign_id } => {
            assert(is_ready(campaign_id));
        },
        SponsorChoice::NeedsTask { campaign_id } => {
            assert(is_eligible(campaign_id));
            assert forall|id: u128| #[trigger]
                state.campaigns.contains_key(id) implies !state.ready(id, user_id, price) by {
                assert(!is_ready(id));
            }
        },
        SponsorChoice::NoSponsor => {
            assert forall|id: u128| #[trigger]
                state.campaigns.contains_key(id) implies !state.eligible(id, user_id, price) by {
                assert(!is_eligible(id));
            }
        },
    }
}

/// A user who completes the task that a campaign waits for is sponsored from then on, in whatever
/// order the campaigns are walked. Where no other campaign was ready, the reply names the sponsor
/// of that campaign.
pub proof fn law_completed_task_unlocks_sponsorship(
    state: AppStateView,
    task: TaskCompletionRequest,
    id: u128,
    now: Timestamp,
    service: Seq<char>,
    request: ServiceRunRequest,
    walk: Seq<u128>,
    payment_id: u128,
)
    requires
        state.campaigns.contains_key(task.campaign_id),
        state.users.contains_key(task.user_id),
        state.eligible(task.campaign_id, task.user_id, state.price(service)),
        task.task_name@ == state.campaigns[task.campaign_id].required_task,
        request.user_id == task.user_id,
        lists_keys(walk, state.campaigns),
    ensures
        state.with_completion(task.completion(id, now)).proxy_outcome(
            service,
            request,
            walk,
            payment_id,
        ) is Ok,
        (forall|other: u128|
            other != task.campaign_id && #[trigger] state.campaigns.contains_key(other)
                ==> !state.ready(other, task.user_id, state.price(service)))
            ==> state.with_completion(task.completion(id, now)).proxy_outcome(
            service,
            request,
            walk,
            payment_id,
        ) == Ok::<PaidReplyView, ApiErrorView>(
            paid_reply(
                service,
                request.input@,
                "sponsored"@,
                Some(state.campaigns[task.campaign_id].sponsor),
                Some(sponsor_tx_hash(payment_id)),
                None,
            ),
        ),
{
    let after = state.with_completion(task.completion(id, now));
    let price = state.price(service);
    let done = state.task_completions.len() as int;
    assert(is_completion(
        after.task_completions,
        done,
        task.campaign_id,
        task.user_id,
        task.task_name@,
    ));
    assert(after.ready(task.campaign_id, task.user_id, price));
    law_sponsor_choice_in_any_order(after, task.user_id, price, walk);
    assert(after.campaigns.contains_key(task.campaign_id));
    if let SponsorChoice::Ready { campaign_id: payer } = after.sponsor_choice(
        task.user_id,
        price,
        walk,
    ) {
        if payer != task.campaign_id {
            let wanted = after.campaigns[payer].required_task;
            let i = choose|i: int| #[trigger]
                is_completion(after.task_completions, i, payer, task.user_id, wanted);
            assert(is_completion(state.task_completions, i, payer, task.user_id, wanted));
            assert(state.ready(payer, task.user_id, price));
            assert(state.campaigns.contains_key(payer));
        }
    }
}

/// What the payments of a campaign add up to after one more record of a new transaction.
proof fn lemma_spent_after(
    payments: Seq<PaymentRecordView>,
    record: PaymentRecordView,
    campaign_id: u128,
)
    requires
        !has_payment(payments, record.tx_hash),
    ensures
        payments_of(with_record(payments, record), campaign_id) == if paid_by(record, campaign_id) {
            payments_of(payments, campaign_id).push(record)
        } else {
            payments_of(payments, campaign_id)
        },
        total_cents(payments_of(with_record(payments, record), campaign_id)) == total_cents(
            payments_of(payments, campaign_id),
        ) + if paid_by(record, campaign_id) {
            record.amount_cents as nat
        } else {
            0
        },
{
    let own = payments_of(payments, campaign_id);
    lemma_filter_push(payments, record, |r: PaymentRecordView| paid_by(r, campaign_id));
    assert(own.push(record).drop_last() =~= own);
}

/// A sponsored call moves the price from what its campaign has left to what it has spent. It is
/// one call more.
pub proof fn law_sponsored_call_conserves_the_budget(
    state: AppStateView,
    campaign_id: u128,
    service: Seq<char>,
    id: u128,
    now: Timestamp,
)
    requires
        state.consistent(),
        state.campaigns.contains_key(campaign_id),
        state.campaigns[campaign_id].budget_remaining_cents >= state.price(service),
        !has_payment(state.payments, sponsor_tx_hash(id)),
    ensures
        ({
            let after = state.with_sponsored_call(campaign_id, service, id, now);
            &&& after.spent(campaign_id) == state.spent(campaign_id) + state.price(service)
            &&& after.spent(campaign_id) + after.campaigns[campaign_id].budget_remaining_cents
                == state.spent(campaign_id) + state.campaigns[campaign_id].budget_remaining_cents
            &&& payments_of(after.payments, campaign_id).len() == payments_of(
                state.payments,
                campaign_id,
            ).len() + 1
        }),
{
    let record = state.sponsor_record(campaign_id, service, id, now);
    lemma_spent_after(state.payments, record, campaign_id);
}

/// A sponsored call leaves the other campaigns, and what they have spent, as they were.
pub proof fn law_sponsored_call_spares_other_campaigns(
    state: AppStateView,
    campaign_id: u128,
    service: Seq<char>,
    id: u128,
    now: Timestamp,
    other: u128,
)
    requires
        state.consistent(),
        state.campaigns.contains_key(campaign_id),
        !has_payment(state.payments, sponsor_tx_hash(id)),
        other != campaign_id,
    ensures
        ({
            let after = state.with_sponsored_call(campaign_id, service, id, now);
            &&& after.campaigns.contains_key(other) == state.campaigns.contains_key(other)
            &&& after.campaigns[other] == state.campaigns[other]
            &&& payments_of(after.payments, other) == payments_of(state.payments, other)
            &&& after.spent(other) == state.spent(other)
        }),
{
    let record = state.sponsor_record(campaign_id, service, id, now);
    lemma_spent_after(state.payments, record, other);
}

/// A call through the proxy without a payment header succeeds where a campaign pays for it, and
/// the reply names the sponsor.
pub proof fn law_sponsored_reply_names_its_payer(
    state: AppStateView,
    service: Seq<char>,
    request: ServiceRunRequest,
    walk: Seq<u128>,
    id: u128,
)
    ensures
        match state.paying_campaign(service, request, walk) {
            Some(payer) => state.proxy_outcome(service, request, walk, id) == Ok::<
                PaidReplyView,
                ApiErrorView,
            >(
                paid_reply(
                    service,
                    request.input@,
                    "sponsored"@,
                    Some(state.campaigns[payer].sponsor),
                    Some(sponsor_tx_hash(id)),
                    None,
                ),
            ),
            None => state.proxy_outcome(service, request, walk, id) is Err,
        },
{
}

/// Whatever a call through the proxy comes to, what a campaign has spent and what it has left add
/// up to the same as before, and what it has left never grows. Its payments are one more where it
/// paid for the call, and as many as before otherwise.
pub proof fn law_proxy_run_conserves_each_budget(
    state: AppStateView,
    service: Seq<char>,
    request: ServiceRunRequest,
    walk: Seq<u128>,
    id: u128,
    now: Timestamp,
    campaign_id: u128,
)
    requires
        state.consistent(),
        lists_keys(walk, state.campaigns),
        !has_payment(state.payments, sponsor_tx_hash(id)),
        state.campaigns.contains_key(campaign_id),
    ensures
        ({
            let after = state.after_proxy(service, request, walk, id, now);
            &&& after.campaigns.contains_key(campaign_id)
            &&& after.spent(campaign_id) + after.campaigns[campaign_id].budget_remaining_cents
                == state.spent(campaign_id) + state.campaigns[campaign_id].budget_remaining_cents
            &&& after.campaigns[campaign_id].budget_remaining_cents
                <= state.campaigns[campaign_id].budget_remaining_cents
            &&& payments_of(after.payments, campaign_id).len() == payments_of(
                state.payments,
                campaign_id,
            ).len() + if state.paying_campaign(service, request, walk) == Some(campaign_id) {
                1nat
            } else {
                0
            }
        }),
{
    let price = state.price(service);
    law_sponsor_choice_in_any_order(state, request.user_id, price, walk);
    if let SponsorChoice::Ready { campaign_id: payer } = state.sponsor_choice(
        request.user_id,
        price,
        walk,
    ) {
        if payer == campaign_id {
            law_sponsored_call_conserves_the_budget(state, payer, service, id, now);
        } else {
            law_sponsored_call_spares_other_campaigns(state, payer, service, id, now, campaign_id);
        }
    }
}

/// A campaign whose budget is used up pays for nothing more.
pub proof fn law_used_up_campaign_is_out(
    state: AppStateView,
    campaign_id: u128,
    service: Seq<char>,
    id: u128,
    now: Timestamp,
    user_id: u128,
    price: u64,
)
    requires
        state.consistent(),
        state.campaigns.contains_key(campaign_id),
        state.campaigns[campaign_id].budget_remaining_cents == state.price(service),
    ensures
        !state.with_sponsored_call(campaign_id, service, id, now).eligible(
            campaign_id,
            user_id,
            price,
        ),
{
}

/// Blocks that come after never take confirmations away.
pub proof fn law_confirmations_grow(tx_block: nat, earlier: nat, later: nat)
    requires
        earlier <= later,
    ensures
        confirmations(tx_block, earlier) <= confirmations(tx_block, later),
{
}

/// The verification of a payment takes two replies of a node: to a call for the receipt of its
/// transaction, and to one for the latest block. It then comes to the settlement by those blocks.
pub proof fn law_two_replies_settle_a_payment(
    config: AppConfig,
    quote: PaymentQuoteView,
    credential: PaymentCredential,
    check: ChainCheckView,
    receipt: RpcReply,
    latest: RpcReply,
    tx_block: nat,
    latest_block: nat,
    then: Timestamp,
    now: Timestamp,
)
    requires
        screening(config, quote, credential) == Ok::<ChainCheckView, ApiErrorView>(check),
        receipt.tx_block() == Ok::<nat, ApiErrorView>(tx_block),
        latest.latest() == Ok::<nat, ApiErrorView>(latest_block),
    ensures
        match VerificationView::begin(config, quote, credential) {
            VerificationStepView::Call { call: first, next: one } => {
                &&& first.rpc_url == check.rpc_url
                &&& first.request == receipt_call(check.tx_hash)
                &&& match one.replied(receipt, then) {
                    VerificationStepView::Call { call: second, next: two } => {
                        &&& second.rpc_url == check.rpc_url
                        &&& second.request == block_number_call()
                        &&& two.replied(latest, now) == match settlement(
                            quote,
                            check,
                            tx_block,
                            latest_block,
                            now,
                        ) {
                            Ok(settled) => VerificationStepView::Settle { settlement: settled },
                            Err(error) => VerificationStepView::Refuse { error },
                        }
                    },
                    _ => false,
                }
            },
            _ => false,
        },
{
}

/// A payment that the test network confirmed unlocks the service that it was made for: its proof
/// passes for every call of that service that it is enough for, and settles the call at every later
/// block.
pub proof fn law_confirmed_payment_unlocks_its_service(
    state: AppStateView,
    request: CreateTestnetPaymentRequest,
    run: TestnetRunView,
    call: NodeCallView,
    tx_block: nat,
    latest_block: nat,
    made_at: Timestamp,
    payment: TestnetPaymentView,
    shown: PaymentProof,
    quote: PaymentQuoteView,
    later_block: nat,
    now: Timestamp,
)
    requires
        state.testnet_payment(request) == (TestnetStepView::Call { call, next: run }),
        run.outcome(tx_block, latest_block, made_at) == Ok::<TestnetPaymentView, ApiErrorView>(
            payment,
        ),
        request.min_confirmations matches Some(needed) ==> needed
            >= state.config.testnet_min_confirmations,
        shown@ == payment.proof,
        quote.service == request.service@,
        quote.amount_cents <= payment.proof.amount_cents,
        latest_block <= later_block,
    ensures
        match screening(state.config, quote, PaymentCredential::Proof { proof: shown }) {
            Ok(check) => {
                &&& check.rpc_url == run.check.rpc_url
                &&& check.tx_hash == request.tx_hash@
                &&& settlement(quote, check, tx_block, later_block, now) == Ok::<
                    PaymentSettlementView,
                    ApiErrorView,
                >(
                    PaymentSettlementView {
                        tx_hash: request.tx_hash@,
                        status: PaymentStatus::Settled,
                        settled_at: now,
                    },
                )
            },
            Err(_) => false,
        },
{
    law_confirmations_grow(tx_block, latest_block, later_block);
}

/// A payment of no amount of its own, or of one of at least the price, is enough for a call of its
/// service, of the tool and through the proxy.
pub proof fn law_testnet_payment_covers_the_price(
    state: AppStateView,
    request: CreateTestnetPaymentRequest,
    run: TestnetRunView,
    call: NodeCallView,
    tx_block: nat,
    latest_block: nat,
    made_at: Timestamp,
    payment: TestnetPaymentView,
)
    requires
        state.testnet_payment(request) == (TestnetStepView::Call { call, next: run }),
        run.outcome(tx_block, latest_block, made_at) == Ok::<TestnetPaymentView, ApiErrorView>(
            payment,
        ),
        request.amount_cents matches Some(amount) ==> amount >= state.price(request.service@),
    ensures
        state.tool_quote(request.service@).amount_cents <= payment.proof.amount_cents,
        state.proxy_quote(request.service@).amount_cents <= payment.proof.amount_cents,
{
}

/// A proof of payment for one service pays for no other, whatever the call: it is refused as not
/// paid for, without a look at the test network.
pub proof fn law_proof_for_another_service_is_refused(
    config: AppConfig,
    quote: PaymentQuoteView,
    shown: PaymentProof,
)
    requires
        shown.service@ != quote.service,
    ensures
        screening(config, quote, PaymentCredential::Proof { proof: shown }) == Err::<
            ChainCheckView,
            ApiErrorView,
        >(service_mismatch(quote)),
        VerificationView::begin(config, quote, PaymentCredential::Proof { proof: shown }) == (
        VerificationStepView::Refuse { error: service_mismatch(quote) }),
{
}

/// So are the run of a tool, a run through the proxy, and a call of a sponsored API, with a proof
/// for another service.
pub proof fn law_every_run_refuses_another_service(
    state: AppStateView,
    service: Seq<char>,
    request: ServiceRunRequest,
    row: SponsoredApiRow,
    api: SponsoredApiView,
    api_request: SponsoredApiRunRequestView,
    shown: PaymentProof,
)
    requires
        shown.service@ != service,
        state.users.contains_key(request.user_id),
        row@.stored_api() == Ok::<SponsoredApiView, ApiErrorView>(api),
        shown.service@ != api.service_key,
    ensures
        state.tool_run(service, request, PaymentCredential::Proof { proof: shown }) == (
        PaidRunStepView::Refuse { error: service_mismatch(state.tool_quote(service)) }),
        state.paid_proxy_run(service, request, PaymentCredential::Proof { proof: shown }) == (
        PaidRunStepView::Refuse { error: service_mismatch(state.proxy_quote(service)) }),
        state.api_run(Ok(Some(row)), PaymentCredential::Proof { proof: shown }, api_request) == (
        RunStepView::Refuse { error: service_mismatch(api.quote()) }),
{
}

/// A demand for payment goes with its own status, and names the version of the protocol to pay by.
pub proof fn law_demand_for_payment_is_announced(
    service: Seq<char>,
    amount_cents: u64,
    message: Seq<char>,
    next_step: Seq<char>,
)
    ensures
        payment_required(service, amount_cents, message, next_step).status()
            == STATUS_PAYMENT_REQUIRED,
        payment_required(service, amount_cents, message, next_step).headers() == seq![
            (X402_VERSION_HEADER@, X402_VERSION@),
        ],
{
}

/// A call without a payment header is refused as not paid for.
pub proof fn law_tool_requires_payment(
    state: AppStateView,
    service: Seq<char>,
    request: ServiceRunRequest,
)
    ensures
        state.tool_run(service, request, PaymentCredential::Missing) == (PaidRunStepView::Refuse {
            error: payment_required(
                service,
                state.price(service),
                "payment required"@,
                "pay with PAYMENT-SIGNATURE and retry"@,
            ),
        }),
{
}

} // verus!
