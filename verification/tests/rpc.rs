use jsonrpsee_server::config::BatchRequestConfig;
use jsonrpsee_server::rpc::{handle_batch, handle_rpc_call, prepare_error, BatchEntry, RpcAction};
use jsonrpsee_server::types::{
    reject_too_big_batch_request, ErrorCode, ErrorObject, Id, BATCHES_NOT_SUPPORTED_CODE,
};

fn call(text: &[u8]) -> Option<String> {
    text.starts_with(b"{\"call\"").then_some(String::from_utf8_lossy(text).into_owned())
}

fn notification(text: &[u8]) -> Option<String> {
    text.starts_with(b"{\"notify\"").then_some(String::from_utf8_lossy(text).into_owned())
}

fn invalid(text: &[u8]) -> Option<Id> {
    text.starts_with(b"{\"id\"").then_some(Id::Number(9))
}

fn handle(
    body: &[u8],
    is_single: bool,
    batch_config: BatchRequestConfig,
) -> RpcAction<String, String> {
    handle_rpc_call(body, is_single, batch_config, &call, &notification, &invalid)
}

#[test]
fn single_call() {
    let action = handle(b"{\"call\":1}", true, BatchRequestConfig::Disabled);
    assert!(matches!(action, RpcAction::Call(text) if text == "{\"call\":1}"));
}

#[test]
fn single_notification() {
    let action = handle(b"{\"notify\":1}", true, BatchRequestConfig::Unlimited);
    assert!(matches!(action, RpcAction::Notification(text) if text == "{\"notify\":1}"));
}

#[test]
fn single_invalid_request() {
    let RpcAction::Error(response) = handle(b"{\"id\":9}", true, BatchRequestConfig::Unlimited)
    else {
        panic!("error expected");
    };
    assert_eq!(response.id, Id::Number(9));
    assert_eq!(response.error.code, -32600);
    assert_eq!(response.error.message, "Invalid request");
    assert_eq!(response.error.data, None);
}

#[test]
fn single_garbage() {
    let RpcAction::Error(response) = handle(b"garbage", true, BatchRequestConfig::Unlimited) else {
        panic!("error expected");
    };
    assert_eq!(response.id, Id::Null);
    assert_eq!(response.error.code, -32700);
    assert_eq!(response.error.message, "Parse error");
}

#[test]
fn disabled_batches() {
    let RpcAction::Error(response) = handle(b"[]", false, BatchRequestConfig::Disabled) else {
        panic!("error expected");
    };
    assert_eq!(response.id, Id::Null);
    assert_eq!(response.error.code, BATCHES_NOT_SUPPORTED_CODE);
    assert_eq!(response.error.code, -32005);
    assert_eq!(response.error.message, "Batched requests are not supported by this server");
}

#[test]
fn batch_over_the_limit() {
    let body = b"[{\"call\":1}, {\"call\":2}, {\"call\":3}]";
    let RpcAction::Error(response) = handle(body, false, BatchRequestConfig::Limit(2)) else {
        panic!("error expected");
    };
    assert_eq!(response.id, Id::Null);
    assert_eq!(response.error.code, -32010);
    assert_eq!(response.error.message, "The batch request was too large");
    assert_eq!(response.error.data, Some("Exceeded max limit of 2".to_string()));
}

#[test]
fn batch_at_the_limit_keeps_its_order() {
    let body = b" [ {\"call\":1} , {\"id\":2},7, {\"notify\": [1, 2]}] ";
    let RpcAction::Batch(batch) = handle(body, false, BatchRequestConfig::Limit(4)) else {
        panic!("batch expected");
    };
    assert_eq!(batch.len(), 4);
    assert!(matches!(&batch[0], Ok(BatchEntry::Call(text)) if text == "{\"call\":1}"));
    let err = batch[1].as_ref().unwrap_err();
    assert_eq!(err.id, Id::Number(9));
    assert_eq!(err.error.code, -32600);
    let err = batch[2].as_ref().unwrap_err();
    assert_eq!(err.id, Id::Null);
    assert_eq!(err.error.code, -32600);
    assert!(
        matches!(&batch[3], Ok(BatchEntry::Notification(text)) if text == "{\"notify\": [1, 2]}")
    );
}

#[test]
fn unlimited_batch() {
    let entries: Vec<String> = (0..1000).map(|i| format!("{{\"call\":{i}}}")).collect();
    let body = format!("[{}]", entries.join(","));
    let RpcAction::Batch(batch) = handle(body.as_bytes(), false, BatchRequestConfig::Unlimited)
    else {
        panic!("batch expected");
    };
    assert_eq!(batch.len(), 1000);
    assert!(matches!(&batch[999], Ok(BatchEntry::Call(text)) if text == "{\"call\":999}"));
}

#[test]
fn empty_batch_is_handed_on() {
    let RpcAction::Batch(batch) = handle(b"[]", false, BatchRequestConfig::Limit(0)) else {
        panic!("batch expected");
    };
    assert!(batch.is_empty());
}

#[test]
fn batch_that_is_no_array() {
    for body in [&b"{\"call\":1}"[..], &b"[{\"call\":1}"[..], &b"[1,]"[..], &b""[..]] {
        let RpcAction::Error(response) = handle(body, false, BatchRequestConfig::Unlimited) else {
            panic!("error expected");
        };
        assert_eq!(response.id, Id::Null);
        assert_eq!(response.error, ErrorObject::from_code(ErrorCode::ParseError));
    }
}

#[test]
fn batch_of_given_elements() {
    let action: RpcAction<String, String> =
        handle_batch(Some(vec![b"{\"call\":1}".to_vec()]), 1, &call, &notification, &invalid);
    assert!(matches!(action, RpcAction::Batch(batch) if batch.len() == 1));
    let action: RpcAction<String, String> =
        handle_batch(None, 1, &call, &notification, &invalid);
    assert!(matches!(action, RpcAction::Error(response) if response.error.code == -32700));
}

#[test]
fn prepared_errors() {
    assert_eq!(prepare_error(b"{\"id\":1}", &invalid), (Id::Number(9), ErrorCode::InvalidRequest));
    assert_eq!(prepare_error(b"{", &invalid), (Id::Null, ErrorCode::ParseError));
}

#[test]
fn limit_is_written_in_decimal() {
    let data = |limit: usize| reject_too_big_batch_request(limit).data.unwrap();
    assert_eq!(data(0), "Exceeded max limit of 0");
    assert_eq!(data(10), "Exceeded max limit of 10");
    assert_eq!(data(4294967295), "Exceeded max limit of 4294967295");
}

#[test]
fn unreached_limit_makes_no_difference() {
    let body = b"[{\"call\":1},{\"notify\":2},3]";
    let limited = handle(body, false, BatchRequestConfig::Limit(3));
    let unlimited = handle(body, false, BatchRequestConfig::Unlimited);
    assert_eq!(format!("{limited:?}"), format!("{unlimited:?}"));
    let single = b"{\"call\":1}";
    let disabled = handle(single, true, BatchRequestConfig::Disabled);
    let unlimited = handle(single, true, BatchRequestConfig::Unlimited);
    assert_eq!(format!("{disabled:?}"), format!("{unlimited:?}"));
}
