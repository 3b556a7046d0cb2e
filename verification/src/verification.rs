//! The verification of payments with the test network.

use vstd::prelude::*;

use crate::config::AppConfig;
use crate::error::{config_error, outcome_view, ApiError, ApiErrorView, ApiResult};
use crate::onchain::{
    BlockLookup, BlockLookupView, LookupStep, LookupStepView, NodeCall, NodeCallView, RpcReply,
};
use crate::payments::{
    payment_required, payment_required_error, PaymentCredential, PaymentQuote, PaymentQuoteView,
};
use crate::text::{decimal, decimal_text, same_text};
use crate::types::{PaymentSettlement, PaymentSettlementView, PaymentStatus, Timestamp};

verus! {

/// What has to be asked of the test network about a proof of payment.
#[derive(Debug)]
pub struct ChainCheck {
    pub rpc_url: String,
    pub tx_hash: String,
    pub min_confirmations: u64,
}

/// The contents of a `ChainCheck`.
pub struct ChainCheckView {
    pub rpc_url: Seq<char>,
    pub tx_hash: Seq<char>,
    pub min_confirmations: u64,
}

impl View for ChainCheck {
    type V = ChainCheckView;

    open spec fn view(&self) -> ChainCheckView {
        ChainCheckView {
            rpc_url: self.rpc_url@,
            tx_hash: self.tx_hash@,
            min_confirmations: self.min_confirmations,
        }
    }
}

/// The check of a transaction on the test network, where the server knows a node of it.
pub open spec fn chain_check(
    config: AppConfig,
    tx_hash: Seq<char>,
    min_confirmations: u64,
) -> Result<ChainCheckView, ApiErrorView> {
    match config.testnet_rpc_url {
        Some(url) => Ok(ChainCheckView { rpc_url: url@, tx_hash, min_confirmations }),
        None => Err(config_error("testnet RPC not configured; set TESTNET_RPC_URL"@)),
    }
}

/// The refusal of a proof of a payment for another service.
pub open spec fn service_mismatch(quote: PaymentQuoteView) -> ApiErrorView {
    payment_required(
        quote.service,
        quote.amount_cents,
        "payment proof service mismatch"@,
        "pay for this service and retry"@,
    )
}

/// What a request's payment header comes to before the test network is asked: it has to hold a
/// proof of a payment for the same service, of at least the price.
pub open spec fn screening(
    config: AppConfig,
    quote: PaymentQuoteView,
    credential: PaymentCredential,
) -> Result<ChainCheckView, ApiErrorView> {
    match credential {
        PaymentCredential::Missing => Err(
            payment_required(
                quote.service,
                quote.amount_cents,
                "payment required"@,
                "pay with PAYMENT-SIGNATURE and retry"@,
            ),
        ),
        PaymentCredential::Malformed => Err(
            payment_required(
                quote.service,
                quote.amount_cents,
                "invalid payment signature"@,
                "pay with PAYMENT-SIGNATURE and retry"@,
            ),
        ),
        PaymentCredential::Proof { proof } => if proof.service@ != quote.service {
            Err(service_mismatch(quote))
        } else if proof.amount_cents < quote.amount_cents {
            Err(
                payment_required(
                    quote.service,
                    quote.amount_cents,
                    "payment amount is below the price"@,
                    "pay the full price and retry"@,
                ),
            )
        } else {
            chain_check(config, proof.tx_hash@, config.testnet_min_confirmations)
        },
    }
}

/// The check of a transaction on the test network, where the server knows a node of it.
pub(crate) fn plan_chain_check(
    config: &AppConfig,
    tx_hash: &str,
    min_confirmations: u64,
) -> (r: ApiResult<ChainCheck>)
    ensures
        outcome_view(r) == chain_check(*config, tx_hash@, min_confirmations),
{
    match &config.testnet_rpc_url {
        Some(url) => Ok(
            ChainCheck { rpc_url: url.clone(), tx_hash: tx_hash.to_owned(), min_confirmations },
        ),
        None => Err(ApiError::config("testnet RPC not configured; set TESTNET_RPC_URL")),
    }
}

/// Looks at a request's payment header, and says what to ask of the test network.
pub fn screen_payment(
    config: &AppConfig,
    quote: &PaymentQuote,
    credential: &PaymentCredential,
) -> (r: ApiResult<ChainCheck>)
    ensures
        outcome_view(r) == screening(*config, quote@, *credential),
{
    let service: &str = quote.service.as_str();
    let price: u64 = quote.amount_cents;
    match credential {
        PaymentCredential::Missing => Err(
            payment_required_error(
                service,
                price,
                "payment required",
                "pay with PAYMENT-SIGNATURE and retry",
            ),
        ),
        PaymentCredential::Malformed => Err(
            payment_required_error(
                service,
                price,
                "invalid payment signature",
                "pay with PAYMENT-SIGNATURE and retry",
            ),
        ),
        PaymentCredential::Proof { proof } => {
            if !same_text(proof.service.as_str(), service) {
                Err(
                    payment_required_error(
                        service,
                        price,
                        "payment proof service mismatch",
                        "pay for this service and retry",
                    ),
                )
            } else if proof.amount_cents < price {
                Err(
                    payment_required_error(
                        service,
                        price,
                        "payment amount is below the price",
                        "pay the full price and retry",
                    ),
                )
            } else {
                plan_chain_check(config, proof.tx_hash.as_str(), config.testnet_min_confirmations)
            }
        },
    }
}

/// How many blocks confirm a transaction: its own, and those after it. What does not fit in 64
/// bits counts as the largest number that does.
pub open spec fn confirmations(tx_block: nat, latest_block: nat) -> u64 {
    if latest_block < tx_block {
        0
    } else if latest_block - tx_block >= u64::MAX {
        u64::MAX
    } else {
        (latest_block - tx_block + 1) as u64
    }
}

/// How many blocks confirm a transaction.
pub fn count_confirmations(tx_block: u64, latest_block: u64) -> (r: u64)
    ensures
        r == confirmations(tx_block as nat, latest_block as nat),
{
    if latest_block < tx_block {
        0
    } else {
        (latest_block - tx_block).saturating_add(1)
    }
}

/// What is said of a transaction that too few blocks confirm.
pub open spec fn unconfirmed_message(found: u64, needed: u64) -> Seq<char> {
    "insufficient confirmations: "@ + decimal(found as nat) + " of "@ + decimal(needed as nat)
}

/// What is said of a transaction that too few blocks confirm.
pub(crate) fn unconfirmed_text(found: u64, needed: u64) -> (r: String)
    ensures
        r@ == unconfirmed_message(found, needed),
{
    let mut message: String = "insufficient confirmations: ".to_owned();
    message.append(decimal_text(found).as_str());
    message.append(" of ");
    message.append(decimal_text(needed).as_str());
    message
}

/// What a proof of payment comes to once the test network was asked: it settles the call where
/// enough blocks confirm its transaction.
pub open spec fn settlement(
    quote: PaymentQuoteView,
    check: ChainCheckView,
    tx_block: nat,
    latest_block: nat,
    now: Timestamp,
) -> Result<PaymentSettlementView, ApiErrorView> {
    let found = confirmations(tx_block, latest_block);
    if found < check.min_confirmations {
        Err(
            payment_required(
                quote.service,
                quote.amount_cents,
                unconfirmed_message(found, check.min_confirmations),
                "wait for more confirmations and retry"@,
            ),
        )
    } else {
        Ok(
            PaymentSettlementView {
                tx_hash: check.tx_hash,
                status: PaymentStatus::Settled,
                settled_at: now,
            },
        )
    }
}

/// Settles a call at a point in time, by the block of the transaction that pays for it and the
/// latest block of the test network.
pub fn settle_payment(
    quote: &PaymentQuote,
    check: &ChainCheck,
    tx_block: u64,
    latest_block: u64,
    now: Timestamp,
) -> (r: ApiResult<PaymentSettlement>)
    ensures
        outcome_view(r) == settlement(quote@, check@, tx_block as nat, latest_block as nat, now),
{
    let found: u64 = count_confirmations(tx_block, latest_block);
    if found < check.min_confirmations {
        return Err(
            payment_required_error(
                quote.service.as_str(),
                quote.amount_cents,
                unconfirmed_text(found, check.min_confirmations).as_str(),
                "wait for more confirmations and retry",
            ),
        );
    }
    Ok(
        PaymentSettlement {
            tx_hash: check.tx_hash.clone(),
            status: PaymentStatus::Settled,
            settled_at: now,
        },
    )
}

/// The verification of a payment, while it waits for a node of the test network.
#[derive(Debug)]
pub struct Verification {
    quote: PaymentQuote,
    check: ChainCheck,
    lookup: BlockLookup,
}

/// The contents of a `Verification`.
pub struct VerificationView {
    pub quote: PaymentQuoteView,
    pub check: ChainCheckView,
    pub lookup: BlockLookupView,
}

impl View for Verification {
    type V = VerificationView;

    closed spec fn view(&self) -> VerificationView {
        VerificationView { quote: self.quote@, check: self.check@, lookup: self.lookup@ }
    }
}

/// What the verification of a payment does next.
#[derive(Debug)]
pub enum VerificationStep {
    /// It calls a node, and goes on with the reply.
    Call { call: NodeCall, next: Verification },
    /// The payment settles the call that it is for.
    Settle { settlement: PaymentSettlement },
    Refuse { error: ApiError },
}

/// The contents of a `VerificationStep`.
pub enum VerificationStepView {
    Call { call: NodeCallView, next: VerificationView },
    Settle { settlement: PaymentSettlementView },
    Refuse { error: ApiErrorView },
}

impl View for VerificationStep {
    type V = VerificationStepView;

    open spec fn view(&self) -> VerificationStepView {
        match self {
            VerificationStep::Call { call, next } => VerificationStepView::Call {
                call: call@,
                next: next@,
            },
            VerificationStep::Settle { settlement } => VerificationStepView::Settle {
                settlement: settlement@,
            },
            VerificationStep::Refuse { error } => VerificationStepView::Refuse { error: error@ },
        }
    }
}

impl VerificationView {
    /// The step that a step of the look-up leads to.
    pub open spec fn after_lookup(
        quote: PaymentQuoteView,
        check: ChainCheckView,
        step: LookupStepView,
        now: Timestamp,
    ) -> VerificationStepView {
        match step {
            LookupStepView::Call { call, next } => VerificationStepView::Call {
                call,
                next: VerificationView { quote, check, lookup: next },
            },
            LookupStepView::Found { tx_block, latest_block } => match settlement(
                quote,
                check,
                tx_block,
                latest_block,
                now,
            ) {
                Ok(settlement) => VerificationStepView::Settle { settlement },
                Err(error) => VerificationStepView::Refuse { error },
            },
            LookupStepView::Refuse { error } => VerificationStepView::Refuse { error },
        }
    }

    /// The step that starts the verification of a request's payment header.
    pub open spec fn begin(
        config: AppConfig,
        quote: PaymentQuoteView,
        credential: PaymentCredential,
    ) -> VerificationStepView {
        match screening(config, quote, credential) {
            Ok(check) => {
                let (call, lookup) = BlockLookupView::begin(check.rpc_url, check.tx_hash);
                VerificationStepView::Call { call, next: VerificationView { quote, check, lookup } }
            },
            Err(error) => VerificationStepView::Refuse { error },
        }
    }

    /// The step that follows a node's reply.
    pub open spec fn replied(self, reply: RpcReply, now: Timestamp) -> VerificationStepView {
        Self::after_lookup(self.quote, self.check, self.lookup.replied(reply), now)
    }
}

impl Verification {
    /// The step that a step of the look-up leads to.
    fn after_lookup(quote: PaymentQuote, check: ChainCheck, step: LookupStep, now: Timestamp) -> (r:
        VerificationStep)
        ensures
            r@ == VerificationView::after_lookup(quote@, check@, step@, now),
    {
        match step {
            LookupStep::Call { call, next } => VerificationStep::Call {
                call,
                next: Verification { quote, check, lookup: next },
            },
            LookupStep::Found { tx_block, latest_block } => match settle_payment(
                &quote,
                &check,
                tx_block,
                latest_block,
                now,
            ) {
                Ok(settlement) => VerificationStep::Settle { settlement },
                Err(error) => VerificationStep::Refuse { error },
            },
            LookupStep::Refuse { error } => VerificationStep::Refuse { error },
        }
    }

    /// Starts the verification of a request's payment header.
    pub fn begin(
        config: &AppConfig,
        quote: PaymentQuote,
        credential: &PaymentCredential,
    ) -> (r: VerificationStep)
        ensures
            r@ == VerificationView::begin(*config, quote@, *credential),
    {
        match screen_payment(config, &quote, credential) {
            Ok(check) => {
                let (call, lookup) = BlockLookup::begin(
                    check.rpc_url.as_str(),
                    check.tx_hash.as_str(),
                );
                VerificationStep::Call { call, next: Verification { quote, check, lookup } }
            },
            Err(error) => VerificationStep::Refuse { error },
        }
    }

    /// Goes on with a node's reply, at a point in time.
    pub fn replied(self, reply: &RpcReply, now: Timestamp) -> (r: VerificationStep)
        requires
            reply.well_formed(),
        ensures
            r@ == self@.replied(*reply, now),
    {
        let step: LookupStep = self.lookup.replied(reply);
        Self::after_lookup(self.quote, self.check, step, now)
    }
}

} // verus!
