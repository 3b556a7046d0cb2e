//! Transactions on the test network, as its JSON-RPC nodes report them.

use vstd::prelude::*;

use crate::error::{ApiError, ApiErrorView, ApiResult, STATUS_BAD_GATEWAY};
use crate::error::{upstream_error, validation_error};
use crate::http_rules::{print_status, status_line};
use crate::json::{json_data, json_is_object, json_member, json_parse, json_print, json_text};
use crate::json::{parse_json, print_json, JsonData};
use crate::text::{chars_of, parse_unsigned, unsigned_value};
use crate::types::texts;

verus! {

/// A call to a JSON-RPC node.
#[derive(Debug)]
pub struct RpcRequest {
    pub id: u64,
    pub method: String,
    pub params: Vec<String>,
}

/// The contents of an `RpcRequest`.
pub struct RpcRequestView {
    pub id: u64,
    pub method: Seq<char>,
    pub params: Seq<Seq<char>>,
}

impl View for RpcRequest {
    type V = RpcRequestView;

    open spec fn view(&self) -> RpcRequestView {
        RpcRequestView { id: self.id, method: self.method@, params: texts(self.params@) }
    }
}

/// The call that asks for the receipt of a transaction.
pub open spec fn receipt_call(tx_hash: Seq<char>) -> RpcRequestView {
    RpcRequestView { id: 1, method: "eth_getTransactionReceipt"@, params: seq![tx_hash] }
}

/// The call that asks for the number of the latest block.
pub open spec fn block_number_call() -> RpcRequestView {
    RpcRequestView { id: 2, method: "eth_blockNumber"@, params: Seq::empty() }
}

/// The call that asks for the receipt of a transaction.
pub fn receipt_request(tx_hash: &str) -> (r: RpcRequest)
    ensures
        r@ == receipt_call(tx_hash@),
{
    let mut params: Vec<String> = Vec::new();
    params.push(tx_hash.to_owned());
    assert(texts(params@) =~= seq![tx_hash@]);
    RpcRequest { id: 1, method: "eth_getTransactionReceipt".to_owned(), params }
}

/// The call that asks for the number of the latest block.
pub fn block_number_request() -> (r: RpcRequest)
    ensures
        r@ == block_number_call(),
{
    let params: Vec<String> = Vec::new();
    assert(texts(params@) =~= Seq::empty());
    RpcRequest { id: 2, method: "eth_blockNumber".to_owned(), params }
}

/// What comes of a call to a node: a reply with an HTTP status and a body, or a failure on the way.
#[derive(Debug)]
pub enum RpcReply {
    Answered { status: u16, body: String },
    Failed { message: String },
}

impl RpcReply {
    /// Whether the status of a reply is one of HTTP's.
    pub open spec fn well_formed(self) -> bool {
        self matches RpcReply::Answered { status, .. } ==> 100 <= status <= 999
    }

    /// The JSON value that a node replied with.
    pub open spec fn value(self) -> Result<JsonData, ApiErrorView> {
        match self {
            RpcReply::Answered { status, body } => rpc_value(status, body@),
            RpcReply::Failed { message } => Err(upstream_error(STATUS_BAD_GATEWAY, message@)),
        }
    }

    /// The block of a transaction, where the reply is to `receipt_call`.
    pub open spec fn tx_block(self) -> Result<nat, ApiErrorView> {
        match self.value() {
            Ok(reply) => receipt_block(reply),
            Err(error) => Err(error),
        }
    }

    /// The number of the latest block, where the reply is to `block_number_call`.
    pub open spec fn latest(self) -> Result<nat, ApiErrorView> {
        match self.value() {
            Ok(reply) => latest_block(reply),
            Err(error) => Err(error),
        }
    }
}

/// `s` without any number of leading `0x`.
pub open spec fn without_hex_prefix(s: Seq<char>) -> Seq<char>
    decreases s.len(),
{
    if s.len() >= 2 && s[0] == '0' && s[1] == 'x' {
        without_hex_prefix(s.skip(2))
    } else {
        s
    }
}

/// The number that a hexadecimal text stands for.
pub open spec fn hex_value(s: Seq<char>) -> Option<nat> {
    unsigned_value(without_hex_prefix(s), 16, u64::MAX as nat)
}

/// Reads a hexadecimal number, with or without `0x` before it.
pub fn parse_hex_u64(value: &str) -> (r: Option<u64>)
    ensures
        match r {
            Some(v) => hex_value(value@) == Some(v as nat),
            None => hex_value(value@) is None,
        },
{
    let chars: Vec<char> = chars_of(value);
    let mut start: usize = 0;
    assert(value@.skip(0) =~= value@);
    while chars.len() - start >= 2 && chars[start] == '0' && chars[start + 1] == 'x'
        invariant
            start <= chars.len(),
            chars@ == value@,
            without_hex_prefix(value@) == without_hex_prefix(value@.skip(start as int)),
        decreases chars.len() - start,
    {
        assert(value@.skip(start as int).skip(2) =~= value@.skip(start + 2));
        start = start + 2;
    }
    assert(value@.subrange(start as int, chars.len() as int) =~= value@.skip(start as int));
    parse_unsigned(value.substring_char(start, chars.len()), 16, u64::MAX)
}

/// What the reply of a node to a call comes to: the JSON value that it holds, where the node
/// reports success with the HTTP status and no error in the value.
pub open spec fn rpc_value(status: u16, body: Seq<char>) -> Result<JsonData, ApiErrorView> {
    if !(200 <= status <= 299) {
        Err(
            upstream_error(
                STATUS_BAD_GATEWAY,
                "rpc error status="@ + status_line(status) + " body="@ + body,
            ),
        )
    } else {
        match json_parse(body) {
            Err(message) => Err(upstream_error(STATUS_BAD_GATEWAY, message)),
            Ok(data) => match data.member("error"@) {
                Some(error) => Err(
                    upstream_error(
                        STATUS_BAD_GATEWAY,
                        "rpc returned error: "@ + json_print(error),
                    ),
                ),
                None => Ok(data),
            },
        }
    }
}

/// The block that a receipt puts its transaction in, where the transaction succeeded.
pub open spec fn receipt_block(reply: JsonData) -> Result<nat, ApiErrorView> {
    match reply.member("result"@) {
        Some(JsonData::Object(members)) => {
            let receipt = JsonData::Object(members);
            let status = match receipt.member("status"@) {
                Some(JsonData::Text(text)) => text,
                _ => "0x0"@,
            };
            match hex_value(status) {
                None => Err(validation_error("invalid status in transaction receipt"@)),
                Some(code) => if code != 1 {
                    Err(validation_error("transaction status is not successful on testnet"@))
                } else {
                    match receipt.member("blockNumber"@) {
                        Some(JsonData::Text(text)) => match hex_value(text) {
                            Some(block) => Ok(block),
                            None => Err(
                                validation_error("invalid blockNumber in transaction receipt"@),
                            ),
                        },
                        _ => Err(validation_error("missing blockNumber in transaction receipt"@)),
                    }
                },
            }
        },
        _ => Err(
            validation_error("transaction receipt not found or not yet indexed on testnet"@),
        ),
    }
}

/// The number of the latest block, as a reply gives it.
pub open spec fn latest_block(reply: JsonData) -> Result<nat, ApiErrorView> {
    match reply.member("result"@) {
        Some(JsonData::Text(text)) => match hex_value(text) {
            Some(block) => Ok(block),
            None => Err(validation_error("invalid eth_blockNumber result"@)),
        },
        _ => Err(validation_error("missing result for eth_blockNumber"@)),
    }
}

/// The contents of a result that holds a number.
pub open spec fn number_outcome(r: ApiResult<u64>) -> Result<nat, ApiErrorView> {
    match r {
        Ok(n) => Ok(n as nat),
        Err(error) => Err(error@),
    }
}

/// Reads the reply of a node to a call, by its HTTP status and its body.
pub fn read_rpc_reply(status: u16, body: &str) -> (r: ApiResult<serde_json::Value>)
    requires
        100 <= status <= 999,
    ensures
        match r {
            Ok(value) => rpc_value(status, body@) == Ok::<JsonData, ApiErrorView>(
                json_data(value),
            ),
            Err(error) => rpc_value(status, body@) == Err::<JsonData, ApiErrorView>(error@),
        },
{
    if !(200 <= status && status <= 299) {
        let mut message: String = "rpc error status=".to_owned();
        message.append(print_status(status).as_str());
        message.append(" body=");
        message.append(body);
        return Err(ApiError::upstream(STATUS_BAD_GATEWAY, message.as_str()));
    }
    let value: serde_json::Value = match parse_json(body) {
        Ok(value) => value,
        Err(message) => {
            return Err(ApiError::upstream(STATUS_BAD_GATEWAY, message.as_str()));
        },
    };
    if let Some(error) = json_member(&value, "error") {
        let mut message: String = "rpc returned error: ".to_owned();
        message.append(print_json(error).as_str());
        return Err(ApiError::upstream(STATUS_BAD_GATEWAY, message.as_str()));
    }
    Ok(value)
}

/// The text under a key of an object.
fn member_text<'a>(value: &'a serde_json::Value, key: &str) -> (r: Option<&'a str>)
    ensures
        match r {
            Some(text) => json_data(*value).member(key@) == Some(JsonData::Text(text@)),
            None => !(json_data(*value).member(key@) matches Some(JsonData::Text(_))),
        },
{
    match json_member(value, key) {
        Some(found) => json_text(found),
        None => None,
    }
}

/// The block of a successful transaction, out of the value that its receipt came in.
pub fn receipt_block_number(reply: &serde_json::Value) -> (r: ApiResult<u64>)
    ensures
        number_outcome(r) == receipt_block(json_data(*reply)),
{
    let receipt: &serde_json::Value = match json_member(reply, "result") {
        Some(result) if json_is_object(result) => result,
        _ => {
            return Err(
                ApiError::validation("transaction receipt not found or not yet indexed on testnet"),
            );
        },
    };
    let status_hex: &str = match member_text(receipt, "status") {
        Some(text) => text,
        None => "0x0",
    };
    match parse_hex_u64(status_hex) {
        None => {
            return Err(ApiError::validation("invalid status in transaction receipt"));
        },
        Some(status) => {
            if status != 1 {
                return Err(ApiError::validation("transaction status is not successful on testnet"));
            }
        },
    }
    match member_text(receipt, "blockNumber") {
        None => Err(ApiError::validation("missing blockNumber in transaction receipt")),
        Some(block_hex) => match parse_hex_u64(block_hex) {
            Some(block) => Ok(block),
            None => Err(ApiError::validation("invalid blockNumber in transaction receipt")),
        },
    }
}

/// The number of the latest block, out of the value that it came in.
pub fn latest_block_number(reply: &serde_json::Value) -> (r: ApiResult<u64>)
    ensures
        number_outcome(r) == latest_block(json_data(*reply)),
{
    match member_text(reply, "result") {
        None => Err(ApiError::validation("missing result for eth_blockNumber")),
        Some(block_hex) => match parse_hex_u64(block_hex) {
            Some(block) => Ok(block),
            None => Err(ApiError::validation("invalid eth_blockNumber result")),
        },
    }
}

/// Reads what came of a call to a node.
fn read_reply(reply: &RpcReply) -> (r: ApiResult<serde_json::Value>)
    requires
        reply.well_formed(),
    ensures
        match r {
            Ok(value) => reply.value() == Ok::<JsonData, ApiErrorView>(json_data(value)),
            Err(error) => reply.value() == Err::<JsonData, ApiErrorView>(error@),
        },
{
    match reply {
        RpcReply::Answered { status, body } => read_rpc_reply(*status, body.as_str()),
        RpcReply::Failed { message } => Err(
            ApiError::upstream(STATUS_BAD_GATEWAY, message.as_str()),
        ),
    }
}

/// The block of a successful transaction, out of a node's reply to `receipt_request`.
pub fn fetch_tx_block_number(reply: &RpcReply) -> (r: ApiResult<u64>)
    requires
        reply.well_formed(),
    ensures
        number_outcome(r) == reply.tx_block(),
{
    match read_reply(reply) {
        Ok(value) => receipt_block_number(&value),
        Err(error) => Err(error),
    }
}

/// The number of the latest block, out of a node's reply to `block_number_request`.
pub fn fetch_latest_block_number(reply: &RpcReply) -> (r: ApiResult<u64>)
    requires
        reply.well_formed(),
    ensures
        number_outcome(r) == reply.latest(),
{
    match read_reply(reply) {
        Ok(value) => latest_block_number(&value),
        Err(error) => Err(error),
    }
}

/// A call to a node, and where it goes.
#[derive(Debug)]
pub struct NodeCall {
    pub rpc_url: String,
    pub request: RpcRequest,
}

/// The contents of a `NodeCall`.
pub struct NodeCallView {
    pub rpc_url: Seq<char>,
    pub request: RpcRequestView,
}

impl View for NodeCall {
    type V = NodeCallView;

    open spec fn view(&self) -> NodeCallView {
        NodeCallView { rpc_url: self.rpc_url@, request: self.request@ }
    }
}

/// A look-up that waits for a node's reply: of the block of a transaction, and once that is known,
/// of the latest block.
#[derive(Debug)]
pub struct BlockLookup {
    rpc_url: String,
    tx_block: Option<u64>,
}

/// The contents of a `BlockLookup`.
pub struct BlockLookupView {
    pub rpc_url: Seq<char>,
    pub tx_block: Option<nat>,
}

impl View for BlockLookup {
    type V = BlockLookupView;

    closed spec fn view(&self) -> BlockLookupView {
        BlockLookupView {
            rpc_url: self.rpc_url@,
            tx_block: match self.tx_block {
                Some(block) => Some(block as nat),
                None => None,
            },
        }
    }
}

/// What a look-up does next.
#[derive(Debug)]
pub enum LookupStep {
    /// It calls a node, and goes on with the reply.
    Call { call: NodeCall, next: BlockLookup },
    /// It has found both blocks.
    Found { tx_block: u64, latest_block: u64 },
    Refuse { error: ApiError },
}

/// The contents of a `LookupStep`.
pub enum LookupStepView {
    Call { call: NodeCallView, next: BlockLookupView },
    Found { tx_block: nat, latest_block: nat },
    Refuse { error: ApiErrorView },
}

impl View for LookupStep {
    type V = LookupStepView;

    open spec fn view(&self) -> LookupStepView {
        match self {
            LookupStep::Call { call, next } => LookupStepView::Call { call: call@, next: next@ },
            LookupStep::Found { tx_block, latest_block } => LookupStepView::Found {
                tx_block: *tx_block as nat,
                latest_block: *latest_block as nat,
            },
            LookupStep::Refuse { error } => LookupStepView::Refuse { error: error@ },
        }
    }
}

impl BlockLookupView {
    /// The call that starts the look-up of a transaction, and what goes on with its reply.
    pub open spec fn begin(rpc_url: Seq<char>, tx_hash: Seq<char>) -> (
        NodeCallView,
        BlockLookupView,
    ) {
        (
            NodeCallView { rpc_url, request: receipt_call(tx_hash) },
            BlockLookupView { rpc_url, tx_block: None },
        )
    }

    /// The step that follows a node's reply.
    pub open spec fn replied(self, reply: RpcReply) -> LookupStepView {
        match self.tx_block {
            None => match reply.tx_block() {
                Ok(tx_block) => LookupStepView::Call {
                    call: NodeCallView { rpc_url: self.rpc_url, request: block_number_call() },
                    next: BlockLookupView { tx_block: Some(tx_block), ..self },
                },
                Err(error) => LookupStepView::Refuse { error },
            },
            Some(tx_block) => match reply.latest() {
                Ok(latest_block) => LookupStepView::Found { tx_block, latest_block },
                Err(error) => LookupStepView::Refuse { error },
            },
        }
    }
}

impl BlockLookup {
    /// The call that starts the look-up of a transaction, and what goes on with its reply.
    pub fn begin(rpc_url: &str, tx_hash: &str) -> (r: (NodeCall, BlockLookup))
        ensures
            (r.0@, r.1@) == BlockLookupView::begin(rpc_url@, tx_hash@),
    {
        (
            NodeCall { rpc_url: rpc_url.to_owned(), request: receipt_request(tx_hash) },
            BlockLookup { rpc_url: rpc_url.to_owned(), tx_block: None },
        )
    }

    /// Goes on with a node's reply.
    pub fn replied(self, reply: &RpcReply) -> (r: LookupStep)
        requires
            reply.well_formed(),
        ensures
            r@ == self@.replied(*reply),
    {
        match self.tx_block {
            None => match fetch_tx_block_number(reply) {
                Ok(tx_block) => LookupStep::Call {
                    call: NodeCall {
                        rpc_url: self.rpc_url.clone(),
                        request: block_number_request(),
                    },
                    next: BlockLookup { rpc_url: self.rpc_url, tx_block: Some(tx_block) },
                },
                Err(error) => LookupStep::Refuse { error },
            },
            Some(tx_block) => match fetch_latest_block_number(reply) {
                Ok(latest_block) => LookupStep::Found { tx_block, latest_block },
                Err(error) => LookupStep::Refuse { error },
            },
        }
    }
}

/// A hexadecimal number reads the same with `0x` before it.
pub proof fn law_hex_prefix_is_optional(s: Seq<char>)
    ensures
        hex_value("0x"@ + s) == hex_value(s),
{
    reveal_strlit("0x");
    assert(("0x"@ + s).skip(2) =~= s);
}

} // verus!
