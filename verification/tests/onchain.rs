//! The replies of JSON-RPC nodes.

use payloadexchange_mvp::error::ApiError;
use payloadexchange_mvp::onchain::{
    block_number_request, fetch_latest_block_number, fetch_tx_block_number, parse_hex_u64,
    receipt_request, BlockLookup, LookupStep, RpcReply,
};

fn reply(status: u16, body: &str) -> RpcReply {
    RpcReply::Answered {
        status,
        body: body.to_string(),
    }
}

fn validation(error: ApiError) -> String {
    match error {
        ApiError::Validation { message } => message,
        other => panic!("expected a validation error, got {other:?}"),
    }
}

fn upstream(error: ApiError) -> String {
    assert_eq!(error.status(), 502);
    match error {
        ApiError::Upstream { message, .. } => message,
        other => panic!("expected an upstream error, got {other:?}"),
    }
}

#[test]
fn hex_numbers_are_read() {
    assert_eq!(parse_hex_u64("0x10"), Some(16));
    assert_eq!(parse_hex_u64("10"), Some(16));
    assert_eq!(parse_hex_u64("0x0xff"), Some(255));
    assert_eq!(parse_hex_u64("DeadBeef"), Some(0xdead_beef));
    assert_eq!(parse_hex_u64("+1f"), Some(31));
    assert_eq!(parse_hex_u64("0xffffffffffffffff"), Some(u64::MAX));
    assert_eq!(parse_hex_u64("0x10000000000000000"), None);
    assert_eq!(parse_hex_u64("0x"), None);
    assert_eq!(parse_hex_u64(""), None);
    assert_eq!(parse_hex_u64("+"), None);
    assert_eq!(parse_hex_u64("-1"), None);
    assert_eq!(parse_hex_u64("0Xff"), None);
    assert_eq!(parse_hex_u64("xyz"), None);
}

#[test]
fn requests_follow_the_protocol() {
    let receipt = receipt_request("0xabc");
    assert_eq!(receipt.id, 1);
    assert_eq!(receipt.method, "eth_getTransactionReceipt");
    assert_eq!(receipt.params, vec!["0xabc".to_string()]);
    let latest = block_number_request();
    assert_eq!(latest.id, 2);
    assert_eq!(latest.method, "eth_blockNumber");
    assert!(latest.params.is_empty());
}

#[test]
fn receipts_are_read() {
    let read = |body: &str| fetch_tx_block_number(&reply(200, body));
    assert_eq!(
        read(r#"{"result":{"status":"0x1","blockNumber":"0x2a"}}"#).unwrap(),
        42
    );
    assert_eq!(
        validation(read(r#"{"result":null}"#).unwrap_err()),
        "transaction receipt not found or not yet indexed on testnet"
    );
    assert_eq!(
        validation(read(r#"[1]"#).unwrap_err()),
        "transaction receipt not found or not yet indexed on testnet"
    );
    assert_eq!(
        validation(read(r#"{"result":{"status":"zz"}}"#).unwrap_err()),
        "invalid status in transaction receipt"
    );
    assert_eq!(
        validation(read(r#"{"result":{"blockNumber":"0x2a"}}"#).unwrap_err()),
        "transaction status is not successful on testnet"
    );
    assert_eq!(
        validation(read(r#"{"result":{"status":"0x1","blockNumber":7}}"#).unwrap_err()),
        "missing blockNumber in transaction receipt"
    );
    assert_eq!(
        validation(read(r#"{"result":{"status":"0x1","blockNumber":"q"}}"#).unwrap_err()),
        "invalid blockNumber in transaction receipt"
    );
}

#[test]
fn latest_blocks_are_read() {
    let read = |body: &str| fetch_latest_block_number(&reply(299, body));
    assert_eq!(read(r#"{"result":"0x14"}"#).unwrap(), 20);
    assert_eq!(
        validation(read(r#"{"result":20}"#).unwrap_err()),
        "missing result for eth_blockNumber"
    );
    assert_eq!(
        validation(read(r#"{"result":"twenty"}"#).unwrap_err()),
        "invalid eth_blockNumber result"
    );
}

#[test]
fn failures_of_a_node_are_passed_on() {
    assert_eq!(
        upstream(fetch_tx_block_number(&reply(503, "busy")).unwrap_err()),
        "rpc error status=503 Service Unavailable body=busy"
    );
    assert_eq!(
        upstream(fetch_latest_block_number(&reply(199, "")).unwrap_err()),
        "rpc error status=199 <unknown status code> body="
    );
    assert_eq!(
        upstream(
            fetch_latest_block_number(&reply(200, r#"{"error":{"message":"no","code":-1}}"#))
                .unwrap_err()
        ),
        r#"rpc returned error: {"code":-1,"message":"no"}"#
    );
    assert_eq!(
        upstream(fetch_latest_block_number(&reply(200, r#"{"error":null}"#)).unwrap_err()),
        "rpc returned error: null"
    );
    assert_eq!(
        upstream(fetch_latest_block_number(&reply(200, "nonsense")).unwrap_err()),
        "expected ident at line 1 column 2"
    );
    let lost = RpcReply::Failed {
        message: "connection refused".to_string(),
    };
    assert_eq!(
        upstream(fetch_tx_block_number(&lost).unwrap_err()),
        "connection refused"
    );
}

#[test]
fn a_look_up_asks_for_the_receipt_and_then_for_the_latest_block() {
    let (call, lookup) = BlockLookup::begin("http://node", "0xabc");
    assert_eq!(call.rpc_url, "http://node");
    assert_eq!(call.request.method, "eth_getTransactionReceipt");
    assert_eq!(call.request.params, vec!["0xabc".to_string()]);
    let receipt = reply(200, r#"{"result":{"status":"0x1","blockNumber":"0x2a"}}"#);
    let lookup = match lookup.replied(&receipt) {
        LookupStep::Call { call, next } => {
            assert_eq!(call.rpc_url, "http://node");
            assert_eq!(call.request.method, "eth_blockNumber");
            next
        }
        other => panic!("expected a second call, got {other:?}"),
    };
    match lookup.replied(&reply(200, r#"{"result":"0x2c"}"#)) {
        LookupStep::Found {
            tx_block,
            latest_block,
        } => assert_eq!((tx_block, latest_block), (42, 44)),
        other => panic!("expected both blocks, got {other:?}"),
    }
    let (_, lookup) = BlockLookup::begin("http://node", "0xabc");
    assert!(matches!(
        lookup.replied(&reply(500, "")),
        LookupStep::Refuse { .. }
    ));
}
