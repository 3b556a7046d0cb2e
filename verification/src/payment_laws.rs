//! What holds of payments by callers, from the header of a request to the reply.

use vstd::prelude::*;

use crate::config::AppConfig;
use crate::error::ApiErrorView;
use crate::http_rules::{status_reason, valid_header_value};
use crate::json::{json_parse, json_print, JsonData};
use crate::onchain::{
    hex_value, latest_block, receipt_block, rpc_value, without_hex_prefix, RpcReply,
};
use crate::paid_runs::{PaidRunStepView, PaidRunView};
use crate::payments::{paid_reply, payment_required, PaymentCredential, PaymentQuoteView};
use crate::state::AppStateView;
use crate::testnet::{TestnetRunView, TestnetStepView};
use crate::text::{decimal, digit_value, digits_value};
use crate::types::{CreateTestnetPaymentRequest, PaymentStatus, ServiceRunRequest, Timestamp};
use crate::verification::{confirmations, VerificationStepView, VerificationView};

verus! {

/// A payment is looked into where the header of a request proves one for the service that is
/// asked for, of at least the price, and a node is known: the node is asked for the receipt of the
/// transaction. Otherwise the request is told to pay the price for the service, and why.
pub proof fn law_which_payments_are_looked_into(
    config: AppConfig,
    quote: PaymentQuoteView,
    credential: PaymentCredential,
)
    ensures
        match VerificationView::begin(config, quote, credential) {
            VerificationStepView::Call { call, next } => {
                &&& credential matches PaymentCredential::Proof { proof }
                &&& proof.service@ == quote.service
                &&& proof.amount_cents >= quote.amount_cents
                &&& config.testnet_rpc_url matches Some(url)
                &&& call.rpc_url == url@
                &&& call.request.id == 1
                &&& call.request.method == "eth_getTransactionReceipt"@
                &&& call.request.params.len() == 1
                &&& call.request.params[0] == proof.tx_hash@
                &&& next.quote == quote
                &&& next.check.rpc_url == url@
                &&& next.check.tx_hash == proof.tx_hash@
                &&& next.check.min_confirmations == config.testnet_min_confirmations
                &&& next.lookup.rpc_url == url@
                &&& next.lookup.tx_block is None
            },
            VerificationStepView::Settle { .. } => false,
            VerificationStepView::Refuse { error: ApiErrorView::Payment { required } } => {
                &&& required.service == quote.service
                &&& required.amount_cents == quote.amount_cents
                &&& required.accepted_header == "payment-signature"@
                &&& match credential {
                    PaymentCredential::Missing => {
                        &&& required.message == "payment required"@
                        &&& required.next_step == "pay with PAYMENT-SIGNATURE and retry"@
                    },
                    PaymentCredential::Malformed => {
                        &&& required.message == "invalid payment signature"@
                        &&& required.next_step == "pay with PAYMENT-SIGNATURE and retry"@
                    },
                    PaymentCredential::Proof { proof } => if proof.service@ != quote.service {
                        &&& required.message == "payment proof service mismatch"@
                        &&& required.next_step == "pay for this service and retry"@
                    } else {
                        &&& proof.amount_cents < quote.amount_cents
                        &&& required.message == "payment amount is below the price"@
                        &&& required.next_step == "pay the full price and retry"@
                    },
                }
            },
            VerificationStepView::Refuse { error: ApiErrorView::Config { message } } => {
                &&& credential matches PaymentCredential::Proof { proof }
                &&& proof.service@ == quote.service
                &&& proof.amount_cents >= quote.amount_cents
                &&& config.testnet_rpc_url is None
                &&& message == "testnet RPC not configured; set TESTNET_RPC_URL"@
            },
            VerificationStepView::Refuse { .. } => false,
        },
{
}

/// Once the node gave the block of the transaction it is asked for the latest block, and once it
/// gave that, the payment settles the call where as many blocks as are needed confirm it, its own
/// block among them. Whatever goes wrong with a reply is what the request is told.
pub proof fn law_payment_settles_once_confirmed(
    verification: VerificationView,
    reply: RpcReply,
    now: Timestamp,
)
    ensures
        match verification.replied(reply, now) {
            VerificationStepView::Call { call, next } => {
                &&& verification.lookup.tx_block is None
                &&& reply.tx_block() matches Ok(block)
                &&& call.rpc_url == verification.lookup.rpc_url
                &&& call.request.id == 2
                &&& call.request.method == "eth_blockNumber"@
                &&& call.request.params.len() == 0
                &&& next.quote == verification.quote
                &&& next.check == verification.check
                &&& next.lookup.rpc_url == verification.lookup.rpc_url
                &&& next.lookup.tx_block == Some(block)
            },
            VerificationStepView::Settle { settlement } => {
                &&& verification.lookup.tx_block matches Some(block)
                &&& reply.latest() matches Ok(latest)
                &&& verification.check.min_confirmations == 0 || latest + 1 - block
                    >= verification.check.min_confirmations
                &&& settlement.tx_hash == verification.check.tx_hash
                &&& settlement.status == PaymentStatus::Settled
                &&& settlement.settled_at == now
            },
            VerificationStepView::Refuse { error } => match verification.lookup.tx_block {
                None => reply.tx_block() == Err::<nat, ApiErrorView>(error),
                Some(block) => match reply.latest() {
                    Err(failure) => error == failure,
                    Ok(latest) => {
                        &&& verification.check.min_confirmations > 0
                        &&& latest + 1 - block < verification.check.min_confirmations
                        &&& error matches ApiErrorView::Payment { required }
                        &&& required.service == verification.quote.service
                        &&& required.amount_cents == verification.quote.amount_cents
                        &&& required.accepted_header == "payment-signature"@
                        &&& required.message == "insufficient confirmations: "@ + decimal(
                            if latest < block {
                                0
                            } else {
                                (latest + 1 - block) as nat
                            },
                        ) + " of "@ + decimal(verification.check.min_confirmations as nat)
                        &&& required.next_step == "wait for more confirmations and retry"@
                    },
                },
            },
        },
{
}

/// A transaction that is not in the chain yet has no confirmation. Its own block is the first, and
/// each block after that is one more.
pub proof fn law_each_block_confirms_once_more(tx_block: nat, latest_block: nat)
    ensures
        latest_block < tx_block ==> confirmations(tx_block, latest_block) == 0,
        confirmations(tx_block, tx_block) == 1,
        tx_block <= latest_block && confirmations(tx_block, latest_block) < u64::MAX
            ==> confirmations(tx_block, latest_block + 1) == confirmations(tx_block, latest_block)
            + 1,
        tx_block <= latest_block && latest_block - tx_block < u64::MAX ==> confirmations(
            tx_block,
            latest_block,
        ) == latest_block - tx_block + 1,
        latest_block >= tx_block + u64::MAX ==> confirmations(tx_block, latest_block) == u64::MAX,
{
}

/// A reply of a node counts where its HTTP status reports success and its body is JSON without a
/// member `error`. Otherwise the node is said to have failed, with what it replied.
pub proof fn law_node_must_report_success(status: u16, body: Seq<char>, message: String)
    ensures
        match rpc_value(status, body) {
            Ok(data) => {
                &&& 200 <= status < 300
                &&& json_parse(body) == Ok::<JsonData, Seq<char>>(data)
                &&& !(data matches JsonData::Object(members) && members.contains_key("error"@))
            },
            Err(ApiErrorView::Upstream { status: code, message }) => {
                &&& code == 502
                &&& if 200 <= status < 300 {
                    match json_parse(body) {
                        Err(failure) => message == failure,
                        Ok(data) => {
                            &&& data matches JsonData::Object(members)
                            &&& members.contains_key("error"@)
                            &&& message == "rpc returned error: "@ + json_print(members["error"@])
                        },
                    }
                } else {
                    message == "rpc error status="@ + (decimal(status as nat) + " "@
                        + status_reason(status)) + " body="@ + body
                }
            },
            Err(_) => false,
        },
        (RpcReply::Failed { message }).value() == Err::<JsonData, ApiErrorView>(
            ApiErrorView::Upstream { status: 502, message: message@ },
        ),
        (RpcReply::Failed { message }).tx_block() == Err::<nat, ApiErrorView>(
            ApiErrorView::Upstream { status: 502, message: message@ },
        ),
        (RpcReply::Failed { message }).latest() == Err::<nat, ApiErrorView>(
            ApiErrorView::Upstream { status: 502, message: message@ },
        ),
{
}

/// A node that answered is read by its status and its body: for the receipt, and for the latest
/// block.
pub proof fn law_answer_of_a_node_is_read(status: u16, body: String)
    ensures
        (RpcReply::Answered { status, body }).value() == rpc_value(status, body@),
        (RpcReply::Answered { status, body }).tx_block() == match rpc_value(status, body@) {
            Ok(data) => receipt_block(data),
            Err(error) => Err(error),
        },
        (RpcReply::Answered { status, body }).latest() == match rpc_value(status, body@) {
            Ok(data) => latest_block(data),
            Err(error) => Err(error),
        },
{
}

/// A receipt puts its transaction in a block where its status is the number one and its block is a
/// number. A receipt without a status is of a transaction that failed.
pub proof fn law_receipt_must_be_of_success(
    reply: Map<Seq<char>, JsonData>,
    receipt: Map<Seq<char>, JsonData>,
)
    requires
        reply.contains_key("result"@),
        reply["result"@] == JsonData::Object(receipt),
    ensures
        match receipt_block(JsonData::Object(reply)) {
            Ok(block) => {
                &&& receipt.contains_key("status"@)
                &&& receipt["status"@] matches JsonData::Text(status)
                &&& hex_value(status) == Some(1nat)
                &&& receipt.contains_key("blockNumber"@)
                &&& receipt["blockNumber"@] matches JsonData::Text(number)
                &&& hex_value(number) == Some(block)
            },
            Err(ApiErrorView::Validation { message }) => {
                let status = if receipt.contains_key("status"@) {
                    match receipt["status"@] {
                        JsonData::Text(status) => hex_value(status),
                        _ => Some(0nat),
                    }
                } else {
                    Some(0nat)
                };
                match status {
                    None => message == "invalid status in transaction receipt"@,
                    Some(code) => if code != 1 {
                        message == "transaction status is not successful on testnet"@
                    } else if receipt.contains_key("blockNumber"@)
                        && receipt["blockNumber"@] is Text {
                        &&& hex_value(receipt["blockNumber"@]->Text_0) is None
                        &&& message == "invalid blockNumber in transaction receipt"@
                    } else {
                        message == "missing blockNumber in transaction receipt"@
                    },
                }
            },
            Err(_) => false,
        },
{
    reveal_strlit("0x0");
    let zero = "0x0"@;
    let rest = zero.skip(2);
    assert(rest =~= seq!['0']);
    assert(without_hex_prefix(rest) == rest);
    assert(without_hex_prefix(zero) == rest);
    assert(rest.drop_last() =~= Seq::<char>::empty());
    assert(digits_value(rest.drop_last(), 16) == Some(0nat));
    assert(digit_value(rest.last(), 16) == Some(0nat));
    assert(digits_value(rest, 16) == Some(0nat));
    assert(hex_value(zero) == Some(0nat));
}

/// Without a receipt a transaction is in no block, and without a number there is no latest block.
pub proof fn law_replies_must_hold_a_result(reply: JsonData)
    ensures
        !(reply matches JsonData::Object(members) && members.contains_key("result"@)
            && members["result"@] is Object) ==> receipt_block(reply) == Err::<nat, ApiErrorView>(
            ApiErrorView::Validation {
                message: "transaction receipt not found or not yet indexed on testnet"@,
            },
        ),
        match latest_block(reply) {
            Ok(block) => {
                &&& reply matches JsonData::Object(members)
                &&& members.contains_key("result"@)
                &&& members["result"@] matches JsonData::Text(number)
                &&& hex_value(number) == Some(block)
            },
            Err(ApiErrorView::Validation { message }) => if reply matches JsonData::Object(members)
                && members.contains_key("result"@) && members["result"@] is Text {
                &&& hex_value((reply->Object_0)["result"@]->Text_0) is None
                &&& message == "invalid eth_blockNumber result"@
            } else {
                message == "missing result for eth_blockNumber"@
            },
            Err(_) => false,
        },
{
}

/// The run of a tool starts with a look into a payment for that tool, of at least its price, for
/// each request alike. So does a run through the proxy with a payment header, where its user is
/// known.
pub proof fn law_paid_runs_ask_for_the_price(
    state: AppStateView,
    service: Seq<char>,
    request: ServiceRunRequest,
    credential: PaymentCredential,
)
    ensures
        match state.tool_run(service, request, credential) {
            PaidRunStepView::Call { call, next } => {
                &&& credential matches PaymentCredential::Proof { proof }
                &&& proof.service@ == service
                &&& proof.amount_cents >= state.price(service)
                &&& state.config.testnet_rpc_url matches Some(url)
                &&& call.rpc_url == url@
                &&& call.request.params == seq![proof.tx_hash@]
                &&& next.service == service
                &&& next.request.input == request.input@
                &&& next.request.user_id == request.user_id
                &&& next.verification.quote.service == service
                &&& next.verification.quote.amount_cents == state.price(service)
                &&& next.verification.quote.resource_path == "/tool/"@ + service + "/run"@
                &&& next.verification.check.tx_hash == proof.tx_hash@
                &&& next.verification.check.min_confirmations
                    == state.config.testnet_min_confirmations
            },
            PaidRunStepView::Show { .. } => false,
            PaidRunStepView::Refuse { error: ApiErrorView::Payment { required } } => {
                &&& required.service == service
                &&& required.amount_cents == state.price(service)
                &&& credential matches PaymentCredential::Proof { proof } ==> proof.service@
                    != service || proof.amount_cents < state.price(service)
            },
            PaidRunStepView::Refuse { error: ApiErrorView::Config { .. } } => {
                state.config.testnet_rpc_url is None
            },
            PaidRunStepView::Refuse { .. } => false,
        },
        !state.users.contains_key(request.user_id) ==> state.paid_proxy_run(
            service,
            request,
            credential,
        ) == (PaidRunStepView::Refuse {
            error: ApiErrorView::NotFound {
                message: "user profile is required before proxy usage"@,
            },
        }),
        state.users.contains_key(request.user_id) ==> match state.paid_proxy_run(
            service,
            request,
            credential,
        ) {
            PaidRunStepView::Call { call, next } => {
                &&& credential matches PaymentCredential::Proof { proof }
                &&& proof.service@ == service
                &&& proof.amount_cents >= state.price(service)
                &&& state.config.testnet_rpc_url matches Some(url)
                &&& call.rpc_url == url@
                &&& call.request.params == seq![proof.tx_hash@]
                &&& next.service == service
                &&& next.request.input == request.input@
                &&& next.request.user_id == request.user_id
                &&& next.verification.quote.service == service
                &&& next.verification.quote.amount_cents == state.price(service)
                &&& next.verification.quote.resource_path == "/proxy/"@ + service + "/run"@
                &&& next.verification.check.tx_hash == proof.tx_hash@
                &&& next.verification.check.min_confirmations
                    == state.config.testnet_min_confirmations
            },
            PaidRunStepView::Show { .. } => false,
            PaidRunStepView::Refuse { error: ApiErrorView::Payment { required } } => {
                &&& required.service == service
                &&& required.amount_cents == state.price(service)
                &&& credential matches PaymentCredential::Proof { proof } ==> proof.service@
                    != service || proof.amount_cents < state.price(service)
            },
            PaidRunStepView::Refuse { error: ApiErrorView::Config { .. } } => {
                state.config.testnet_rpc_url is None
            },
            PaidRunStepView::Refuse { .. } => false,
        },
{
}

/// A run that waits for a node goes on as the verification of its payment does. Once the payment
/// settles it, the reply holds the output of the service that was asked for, and the transaction.
pub proof fn law_settled_run_is_answered(
    run: PaidRunView,
    reply: RpcReply,
    now: Timestamp,
    header: Seq<char>,
)
    ensures
        match (run.replied(reply, now), run.verification.replied(reply, now)) {
            (
                PaidRunStepView::Call { call, next },
                VerificationStepView::Call { call: asked, next: verification },
            ) => {
                &&& call == asked
                &&& next.service == run.service
                &&& next.request == run.request
                &&& next.verification == verification
            },
            (
                PaidRunStepView::Show { settlement, next },
                VerificationStepView::Settle { settlement: settled },
            ) => {
                &&& settlement == settled
                &&& next.reply(header).body.service == run.service
                &&& next.reply(header).body.output == "service '"@ + run.service
                    + "' processed: "@ + run.request.input
                &&& next.reply(header).body.payment_mode == "user_direct"@
                &&& next.reply(header).body.sponsored_by is None
                &&& next.reply(header).body.tx_hash == Some(settlement.tx_hash)
                &&& next.reply(header).headers.len() >= 1
                &&& next.reply(header).headers[0] == ("x402-version"@, "2"@)
                &&& valid_header_value(header) ==> {
                    &&& next.reply(header).headers.len() == 2
                    &&& next.reply(header).headers[1] == ("payment-response"@, header)
                }
                &&& !valid_header_value(header) ==> next.reply(header).headers.len() == 1
            },
            (
                PaidRunStepView::Refuse { error },
                VerificationStepView::Refuse { error: refusal },
            ) => error == refusal,
            _ => false,
        },
{
}

/// The reply to a call that was paid for names the service, holds what the service made of the
/// input, and says how it was paid for.
pub proof fn law_reply_to_a_paid_call(
    service: Seq<char>,
    input: Seq<char>,
    payment_mode: Seq<char>,
    sponsored_by: Option<Seq<char>>,
    tx_hash: Option<Seq<char>>,
)
    ensures
        ({
            let reply = paid_reply(service, input, payment_mode, sponsored_by, tx_hash, None);
            &&& reply.headers.len() == 1
            &&& reply.headers[0] == ("x402-version"@, "2"@)
            &&& reply.body.service == service
            &&& reply.body.output == "service '"@ + service + "' processed: "@ + input
            &&& reply.body.payment_mode == payment_mode
            &&& reply.body.sponsored_by == sponsored_by
            &&& reply.body.tx_hash == tx_hash
        }),
{
}

/// A demand for payment says for what, how much, under which header, why, and what to do.
pub proof fn law_demand_says_what_to_pay(
    service: Seq<char>,
    amount_cents: u64,
    message: Seq<char>,
    next_step: Seq<char>,
)
    ensures
        payment_required(service, amount_cents, message, next_step) matches ApiErrorView::Payment {
            required,
        } && {
            &&& required.service == service
            &&& required.amount_cents == amount_cents
            &&& required.accepted_header == "payment-signature"@
            &&& required.message == message
            &&& required.next_step == next_step
        },
{
}

/// A payment on the test network is looked into where a node is known. It is of the amount that the
/// request names, or else of the price of its service, and needs the confirmations that the request
/// names, or else those of the settings.
pub proof fn law_testnet_payment_is_as_asked(
    state: AppStateView,
    request: CreateTestnetPaymentRequest,
)
    ensures
        match state.testnet_payment(request) {
            TestnetStepView::Call { call, next } => {
                &&& state.config.testnet_rpc_url matches Some(url)
                &&& call.rpc_url == url@
                &&& call.request.id == 1
                &&& call.request.method == "eth_getTransactionReceipt"@
                &&& call.request.params == seq![request.tx_hash@]
                &&& next.payer == request.payer@
                &&& next.service == request.service@
                &&& request.amount_cents matches Some(amount) ==> next.amount_cents == amount
                &&& request.amount_cents is None ==> next.amount_cents == state.price(
                    request.service@,
                )
                &&& next.check.tx_hash == request.tx_hash@
                &&& request.min_confirmations matches Some(needed) ==> next.check.min_confirmations
                    == needed
                &&& request.min_confirmations is None ==> next.check.min_confirmations
                    == state.config.testnet_min_confirmations
                &&& next.lookup.rpc_url == url@
                &&& next.lookup.tx_block is None
            },
            TestnetStepView::Accept { .. } => false,
            TestnetStepView::Refuse { error: ApiErrorView::Config { message } } => {
                &&& state.config.testnet_rpc_url is None
                &&& message == "testnet RPC not configured; set TESTNET_RPC_URL"@
            },
            TestnetStepView::Refuse { .. } => false,
        },
{
}

/// A payment on the test network is accepted once enough blocks confirm it, its own among them, and
/// is then proved by what its request held. Whatever goes wrong with a reply is what the request is
/// told.
pub proof fn law_testnet_payment_is_proved_once_confirmed(
    run: TestnetRunView,
    reply: RpcReply,
    now: Timestamp,
)
    ensures
        match run.replied(reply, now) {
            TestnetStepView::Call { call, next } => {
                &&& run.lookup.tx_block is None
                &&& reply.tx_block() matches Ok(block)
                &&& call.rpc_url == run.lookup.rpc_url
                &&& call.request.id == 2
                &&& call.request.method == "eth_blockNumber"@
                &&& call.request.params.len() == 0
                &&& next.payer == run.payer
                &&& next.service == run.service
                &&& next.amount_cents == run.amount_cents
                &&& next.check == run.check
                &&& next.lookup.rpc_url == run.lookup.rpc_url
                &&& next.lookup.tx_block == Some(block)
            },
            TestnetStepView::Accept { payment } => {
                &&& run.lookup.tx_block matches Some(block)
                &&& reply.latest() matches Ok(latest)
                &&& run.check.min_confirmations == 0 || latest + 1 - block
                    >= run.check.min_confirmations
                &&& payment.proof.tx_hash == run.check.tx_hash
                &&& payment.proof.service == run.service
                &&& payment.proof.amount_cents == run.amount_cents
                &&& payment.proof.payer == run.payer
                &&& payment.proof.sponsored_campaign_id is None
                &&& payment.proof.created_at == now
                &&& latest >= block && latest - block < u64::MAX ==> payment.confirmations == latest
                    + 1 - block
                &&& latest < block ==> payment.confirmations == 0
            },
            TestnetStepView::Refuse { error } => match run.lookup.tx_block {
                None => reply.tx_block() == Err::<nat, ApiErrorView>(error),
                Some(block) => match reply.latest() {
                    Err(failure) => error == failure,
                    Ok(latest) => {
                        &&& run.check.min_confirmations > 0
                        &&& latest + 1 - block < run.check.min_confirmations
                        &&& error matches ApiErrorView::Validation { message }
                        &&& message == "insufficient confirmations: "@ + decimal(
                            if latest < block {
                                0
                            } else {
                                (latest + 1 - block) as nat
                            },
                        ) + " of "@ + decimal(run.check.min_confirmations as nat)
                    },
                },
            },
        },
{
}

} // verus!
