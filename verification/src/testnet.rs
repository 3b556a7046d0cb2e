//! Payments on the test network, and the proofs that they give.

use vstd::prelude::*;

use crate::clock::utc_now;
use crate::error::{outcome_view, validation_error, ApiError, ApiErrorView, ApiResult};
use crate::onchain::{
    BlockLookup, BlockLookupView, LookupStep, LookupStepView, NodeCall, NodeCallView, RpcReply,
};
use crate::state::{AppState, AppStateView};
use crate::types::{
    CreateTestnetPaymentRequest, PaymentProof, PaymentProofView, TestnetPaymentResponse, Timestamp,
};
use crate::verification::{
    chain_check, confirmations, count_confirmations, plan_chain_check, unconfirmed_message,
    unconfirmed_text, ChainCheck, ChainCheckView,
};

verus! {

/// The proof of a payment on the test network, and how well it is confirmed.
#[derive(Debug)]
pub struct TestnetPayment {
    pub proof: PaymentProof,
    pub confirmations: u64,
}

/// The contents of a `TestnetPayment`.
pub struct TestnetPaymentView {
    pub proof: PaymentProofView,
    pub confirmations: u64,
}

impl View for TestnetPayment {
    type V = TestnetPaymentView;

    open spec fn view(&self) -> TestnetPaymentView {
        TestnetPaymentView { proof: self.proof@, confirmations: self.confirmations }
    }
}

impl TestnetPayment {
    /// What is told of the payment. `payment_signature` is its proof, as the payment header is to
    /// hold it.
    pub fn response(&self, payment_signature: String) -> (r: TestnetPaymentResponse)
        ensures
            r.tx_hash@ == self@.proof.tx_hash,
            r.payment_signature == payment_signature,
            r.confirmations == self@.confirmations,
    {
        TestnetPaymentResponse {
            tx_hash: self.proof.tx_hash.clone(),
            payment_signature,
            confirmations: self.confirmations,
        }
    }
}

/// A payment on the test network, while it waits for a node.
#[derive(Debug)]
pub struct TestnetRun {
    payer: String,
    service: String,
    amount_cents: u64,
    check: ChainCheck,
    lookup: BlockLookup,
}

/// The contents of a `TestnetRun`.
pub struct TestnetRunView {
    pub payer: Seq<char>,
    pub service: Seq<char>,
    pub amount_cents: u64,
    pub check: ChainCheckView,
    pub lookup: BlockLookupView,
}

impl View for TestnetRun {
    type V = TestnetRunView;

    closed spec fn view(&self) -> TestnetRunView {
        TestnetRunView {
            payer: self.payer@,
            service: self.service@,
            amount_cents: self.amount_cents,
            check: self.check@,
            lookup: self.lookup@,
        }
    }
}

/// What a payment on the test network does next.
#[derive(Debug)]
pub enum TestnetStep {
    /// It calls a node, and goes on with the reply.
    Call { call: NodeCall, next: TestnetRun },
    Accept { payment: TestnetPayment },
    Refuse { error: ApiError },
}

/// The contents of a `TestnetStep`.
pub enum TestnetStepView {
    Call { call: NodeCallView, next: TestnetRunView },
    Accept { payment: TestnetPaymentView },
    Refuse { error: ApiErrorView },
}

impl View for TestnetStep {
    type V = TestnetStepView;

    open spec fn view(&self) -> TestnetStepView {
        match self {
            TestnetStep::Call { call, next } => TestnetStepView::Call { call: call@, next: next@ },
            TestnetStep::Accept { payment } => TestnetStepView::Accept { payment: payment@ },
            TestnetStep::Refuse { error } => TestnetStepView::Refuse { error: error@ },
        }
    }
}

impl TestnetRunView {
    /// What the payment comes to once both blocks are found: a proof, where enough blocks confirm
    /// it.
    pub open spec fn outcome(self, tx_block: nat, latest_block: nat, now: Timestamp) -> Result<
        TestnetPaymentView,
        ApiErrorView,
    > {
        let found = confirmations(tx_block, latest_block);
        if found < self.check.min_confirmations {
            Err(validation_error(unconfirmed_message(found, self.check.min_confirmations)))
        } else {
            Ok(
                TestnetPaymentView {
                    proof: PaymentProofView {
                        tx_hash: self.check.tx_hash,
                        service: self.service,
                        amount_cents: self.amount_cents,
                        payer: self.payer,
                        sponsored_campaign_id: None,
                        created_at: now,
                    },
                    confirmations: found,
                },
            )
        }
    }

    /// The step that follows a node's reply.
    pub open spec fn replied(self, reply: RpcReply, now: Timestamp) -> TestnetStepView {
        match self.lookup.replied(reply) {
            LookupStepView::Call { call, next } => TestnetStepView::Call {
                call,
                next: TestnetRunView { lookup: next, ..self },
            },
            LookupStepView::Found { tx_block, latest_block } => match self.outcome(
                tx_block,
                latest_block,
                now,
            ) {
                Ok(payment) => TestnetStepView::Accept { payment },
                Err(error) => TestnetStepView::Refuse { error },
            },
            LookupStepView::Refuse { error } => TestnetStepView::Refuse { error },
        }
    }
}

/// Accepts a payment on the test network at a point in time, where enough blocks confirm it.
fn accept_testnet_payment(
    payer: String,
    service: String,
    amount_cents: u64,
    check: ChainCheck,
    tx_block: u64,
    latest_block: u64,
    now: Timestamp,
) -> (r: ApiResult<TestnetPayment>)
    ensures
        forall|run: TestnetRunView|
            run.payer == payer@ && run.service == service@ && run.amount_cents == amount_cents
                && run.check == check@ ==> outcome_view(r) == #[trigger] run.outcome(
                tx_block as nat,
                latest_block as nat,
                now,
            ),
{
    let found: u64 = count_confirmations(tx_block, latest_block);
    if found < check.min_confirmations {
        return Err(ApiError::validation(unconfirmed_text(found, check.min_confirmations).as_str()));
    }
    Ok(
        TestnetPayment {
            proof: PaymentProof {
                tx_hash: check.tx_hash,
                service,
                amount_cents,
                payer,
                sponsored_campaign_id: None,
                created_at: now,
            },
            confirmations: found,
        },
    )
}

impl TestnetRun {
    /// Goes on with a node's reply, at a point in time.
    pub fn replied_at(self, reply: &RpcReply, now: Timestamp) -> (r: TestnetStep)
        requires
            reply.well_formed(),
        ensures
            r@ == self@.replied(*reply, now),
    {
        let TestnetRun { payer, service, amount_cents, check, lookup } = self;
        match lookup.replied(reply) {
            LookupStep::Call { call, next } => TestnetStep::Call {
                call,
                next: TestnetRun { payer, service, amount_cents, check, lookup: next },
            },
            LookupStep::Found { tx_block, latest_block } => {
                match accept_testnet_payment(
                    payer,
                    service,
                    amount_cents,
                    check,
                    tx_block,
                    latest_block,
                    now,
                ) {
                    Ok(payment) => TestnetStep::Accept { payment },
                    Err(error) => TestnetStep::Refuse { error },
                }
            },
            LookupStep::Refuse { error } => TestnetStep::Refuse { error },
        }
    }

    /// Goes on with a node's reply.
    pub fn replied(self, reply: &RpcReply) -> (r: TestnetStep)
        requires
            reply.well_formed(),
        ensures
            exists|now: Timestamp| r@ == #[trigger] self@.replied(*reply, now),
    {
        let now: Timestamp = utc_now();
        self.replied_at(reply, now)
    }
}

impl AppStateView {
    /// The step that starts a payment on the test network: of the amount asked for, or else the
    /// price of the service.
    pub open spec fn testnet_payment(
        self,
        request: CreateTestnetPaymentRequest,
    ) -> TestnetStepView {
        let needed = match request.min_confirmations {
            Some(needed) => needed,
            None => self.config.testnet_min_confirmations,
        };
        match chain_check(self.config, request.tx_hash@, needed) {
            Ok(check) => {
                let (call, lookup) = BlockLookupView::begin(check.rpc_url, check.tx_hash);
                TestnetStepView::Call {
                    call,
                    next: TestnetRunView {
                        payer: request.payer@,
                        service: request.service@,
                        amount_cents: match request.amount_cents {
                            Some(amount) => amount,
                            None => self.price(request.service@),
                        },
                        check,
                        lookup,
                    },
                }
            },
            Err(error) => TestnetStepView::Refuse { error },
        }
    }
}

impl AppState {
    /// Starts a payment on the test network.
    pub fn create_testnet_payment(&self, request: CreateTestnetPaymentRequest) -> (r: TestnetStep)
        ensures
            r@ == self@.testnet_payment(request),
    {
        let needed: u64 = match request.min_confirmations {
            Some(needed) => needed,
            None => self.config.testnet_min_confirmations,
        };
        let check: ChainCheck = match plan_chain_check(
            &self.config,
            request.tx_hash.as_str(),
            needed,
        ) {
            Ok(check) => check,
            Err(error) => {
                return TestnetStep::Refuse { error };
            },
        };
        let amount_cents: u64 = match request.amount_cents {
            Some(amount) => amount,
            None => self.service_price(request.service.as_str()),
        };
        let (call, lookup) = BlockLookup::begin(check.rpc_url.as_str(), check.tx_hash.as_str());
        TestnetStep::Call {
            call,
            next: TestnetRun {
                payer: request.payer,
                service: request.service,
                amount_cents,
                check,
                lookup,
            },
        }
    }
}

} // verus!
