//! What the operations of the server do, in terms of what goes in and what comes out.

use crate::accept::{
    accept_outcome, action_on, id_of, next_phase, AcceptConnection, AcceptEvent, AcceptLoopView,
    ConnectionAction, ConnectionEvent, ConnectionPhase, ProcessConnection, ServerPhase,
};
use crate::builder::{nth_id, TowerServiceBuilder};
use crate::config::{default_ping, default_settings, BatchRequestConfig, Settings};
use crate::connection_manager::{
    delivery, failures, ids, notification_json, sinks, successes, targets_all, targets_matching,
    targets_sound, written, ConnectionId, MultiSendView, NotificationError, NotificationView,
};
use crate::handshake::{
    accept_key, ascii, bytes_of, entry_ends, entry_starts, header_value, list_entry, lists,
    RequestHead,
};
use crate::outside::duration_of_secs;
use crate::properties::{failed_are_those_not_reached, reads};
use crate::rpc::{
    batch_action, json_array_elements, prepared_error, rpc_action, texts, BatchEntry,
    BatchEntryErr, RpcAction,
};
use crate::service::{
    hears, listens, served, CallAction, ServiceData, TowerService, TowerServiceNoHttp,
};
use crate::summary;
use crate::text::{decimal, json_char, json_string};
use crate::traits::MessageCryptoErrorPolicy;
use crate::types::{error_of_code, ErrorCode, ErrorObject, Id};
use tokio::sync::OwnedSemaphorePermit;
use vstd::prelude::*;

verus! {

/// The error says that the message is no JSON-RPC request.
pub open spec fn says_invalid_request(error: ErrorObject) -> bool {
    error.code == -32600 && error.message@ == "Invalid request"@ && error.data is None
}

/// The error says that the message is no JSON.
pub open spec fn says_parse_error(error: ErrorObject) -> bool {
    error.code == -32700 && error.message@ == "Parse error"@ && error.data is None
}

/// A single message goes to the service as a call where it can be read as one, even if it can be
/// read as a notification too. Only what is no call goes to it as a notification, where it can be
/// read as one. Anything else is answered with an error that carries the id, if there is one.
pub proof fn calls_come_before_notifications<
    R,
    N,
    C: Fn(&[u8]) -> Option<R>,
    M: Fn(&[u8]) -> Option<N>,
    I: Fn(&[u8]) -> Option<Id>,
>(
    parse_call: C,
    calls: spec_fn(Seq<u8>) -> Option<R>,
    parse_notification: M,
    notifications: spec_fn(Seq<u8>) -> Option<N>,
    parse_invalid: I,
    invalid: spec_fn(Seq<u8>) -> Option<Id>,
    body: Seq<u8>,
    batch_config: BatchRequestConfig,
    action: RpcAction<R, N>,
)
    requires
        reads(parse_call, calls),
        reads(parse_notification, notifications),
        reads(parse_invalid, invalid),
        rpc_action(parse_call, parse_notification, parse_invalid, body, true, batch_config, action),
    ensures
        calls(body) matches Some(request) ==> action == RpcAction::<R, N>::Call(request),
        calls(body) is None ==> (notifications(body) matches Some(notification) ==> action
            == RpcAction::<R, N>::Notification(notification)),
        calls(body) is None && notifications(body) is None ==> (
        action matches RpcAction::Error(response) && match invalid(body) {
            Some(id) => response.id == id && says_invalid_request(response.error),
            None => response.id is Null && says_parse_error(response.error),
        }),
{
}

/// Whatever the parsers are, a message that goes to the service as a notification was refused by the
/// parser of calls, and one that is answered with an error was refused by both.
pub proof fn refused_before_it_is_something_else<
    R,
    N,
    C: Fn(&[u8]) -> Option<R>,
    M: Fn(&[u8]) -> Option<N>,
    I: Fn(&[u8]) -> Option<Id>,
>(
    parse_call: C,
    parse_notification: M,
    parse_invalid: I,
    body: Seq<u8>,
    batch_config: BatchRequestConfig,
    action: RpcAction<R, N>,
)
    requires
        rpc_action(parse_call, parse_notification, parse_invalid, body, true, batch_config, action),
    ensures
        action is Call || (exists|s: &[u8]|
            s@ == body && #[trigger] parse_call.ensures((s,), None)),
        action matches RpcAction::Call(request) ==> (exists|s: &[u8]|
            s@ == body && #[trigger] parse_call.ensures((s,), Some(request))),
        action matches RpcAction::Notification(notification) ==> (exists|s: &[u8]|
            s@ == body && #[trigger] parse_notification.ensures((s,), Some(notification))),
        action is Error ==> (exists|s: &[u8]|
            s@ == body && #[trigger] parse_notification.ensures((s,), None)),
        !(action is Batch),
{
}

/// The entry of a batch is what its text means: a call where it can be read as one, else a
/// notification where it can be read as one, else an error that carries the id, if there is one.
pub open spec fn entry_means<R, N>(
    calls: spec_fn(Seq<u8>) -> Option<R>,
    notifications: spec_fn(Seq<u8>) -> Option<N>,
    invalid: spec_fn(Seq<u8>) -> Option<Id>,
    text: Seq<u8>,
    entry: Result<BatchEntry<R, N>, BatchEntryErr>,
) -> bool {
    match (calls(text), notifications(text)) {
        (Some(request), _) => entry == Ok::<_, BatchEntryErr>(BatchEntry::<R, N>::Call(request)),
        (None, Some(notification)) => entry == Ok::<_, BatchEntryErr>(
            BatchEntry::<R, N>::Notification(notification),
        ),
        (None, None) => {
            &&& entry matches Err(err)
            &&& says_invalid_request(err.error)
            &&& match invalid(text) {
                Some(id) => err.id == id,
                None => err.id is Null,
            }
        },
    }
}

/// A batch of at most as many elements as allowed goes to the service, with one entry for each
/// element, in order, that is what the element means. A larger one is answered with an error that
/// names the limit, and one that is no array with a parse error.
pub proof fn batches_are_read_element_by_element<
    R,
    N,
    C: Fn(&[u8]) -> Option<R>,
    M: Fn(&[u8]) -> Option<N>,
    I: Fn(&[u8]) -> Option<Id>,
>(
    parse_call: C,
    calls: spec_fn(Seq<u8>) -> Option<R>,
    parse_notification: M,
    notifications: spec_fn(Seq<u8>) -> Option<N>,
    parse_invalid: I,
    invalid: spec_fn(Seq<u8>) -> Option<Id>,
    elements: Option<Seq<Seq<u8>>>,
    limit: Option<nat>,
    action: RpcAction<R, N>,
)
    requires
        reads(parse_call, calls),
        reads(parse_notification, notifications),
        reads(parse_invalid, invalid),
        batch_action(parse_call, parse_notification, parse_invalid, elements, limit, action),
    ensures
        elements is None ==> (action matches RpcAction::Error(response) && response.id is Null
            && says_parse_error(response.error)),
        elements matches Some(elements) ==> {
            if limit is Some && elements.len() > limit->0 {
                &&& action matches RpcAction::Error(response)
                &&& response.id is Null
                &&& response.error.code == -32010
                &&& response.error.message@ == "The batch request was too large"@
                &&& response.error.data matches Some(data)
                &&& data@ == "Exceeded max limit of "@ + decimal(limit->0)
            } else {
                &&& action matches RpcAction::Batch(batch)
                &&& batch@.len() == elements.len()
                &&& forall|i: int|
                    0 <= i < elements.len() ==> entry_means(
                        calls,
                        notifications,
                        invalid,
                        elements[i],
                        #[trigger] batch@[i],
                    )
            }
        },
{
    if let Some(elements) = elements {
        if !(limit is Some && elements.len() > limit->0) {
            assert(action is Batch);
            let batch = action->Batch_0;
            assert forall|i: int| 0 <= i < elements.len() implies entry_means(
                calls,
                notifications,
                invalid,
                elements[i],
                #[trigger] batch@[i],
            ) by {
            }
        }
    }
}

/// A batch is answered with an error where batches are disabled, whatever it holds. Otherwise the
/// elements of its array decide, under the limit that was configured, or under none.
pub proof fn batches_go_by_the_configuration<
    R,
    N,
    C: Fn(&[u8]) -> Option<R>,
    M: Fn(&[u8]) -> Option<N>,
    I: Fn(&[u8]) -> Option<Id>,
>(
    parse_call: C,
    parse_notification: M,
    parse_invalid: I,
    body: Seq<u8>,
    batch_config: BatchRequestConfig,
    action: RpcAction<R, N>,
)
    requires
        rpc_action(parse_call, parse_notification, parse_invalid, body, false, batch_config, action),
    ensures
        batch_config is Disabled ==> (action matches RpcAction::Error(response) && response.id
            is Null && response.error.code == -32005 && response.error.message@
            == "Batched requests are not supported by this server"@ && response.error.data is None),
        batch_config is Unlimited ==> (action is Batch <==> json_array_elements(body) is Some),
        batch_config matches BatchRequestConfig::Limit(limit) ==> (action is Batch <==> (
        json_array_elements(body) matches Some(elements) && elements.len() <= limit)),
        action matches RpcAction::Batch(batch) ==> (json_array_elements(body) matches Some(elements)
            && batch@.len() == elements.len()),
        batch_config is Unlimited ==> batch_action(
            parse_call,
            parse_notification,
            parse_invalid,
            json_array_elements(body),
            None,
            action,
        ),
        batch_config matches BatchRequestConfig::Limit(limit) ==> batch_action(
            parse_call,
            parse_notification,
            parse_invalid,
            json_array_elements(body),
            Some(limit as nat),
            action,
        ),
        !(action is Call) && !(action is Notification),
{
}

/// A message that cannot be dispatched is an invalid request where its id can be read, and a parse
/// error without an id otherwise.
pub proof fn undispatched_messages_keep_their_id<I: Fn(&[u8]) -> Option<Id>>(
    parse_invalid: I,
    invalid: spec_fn(Seq<u8>) -> Option<Id>,
    body: Seq<u8>,
    id: Id,
    code: ErrorCode,
)
    requires
        reads(parse_invalid, invalid),
        prepared_error(parse_invalid, body, id, error_of_code(code)),
    ensures
        match invalid(body) {
            Some(known) => id == known && code == ErrorCode::InvalidRequest,
            None => id is Null && code == ErrorCode::ParseError,
        },
{
}

/// The error of a code says what its code stands for.
pub proof fn errors_say_what_their_code_stands_for(code: ErrorCode, error: ErrorObject)
    requires
        error@ == error_of_code(code),
    ensures
        code == ErrorCode::InvalidRequest ==> says_invalid_request(error),
        code == ErrorCode::ParseError ==> says_parse_error(error),
{
}

/// The number that digits stand for.
pub open spec fn number(digits: Seq<char>) -> nat
    decreases digits.len(),
{
    if digits.len() == 0 {
        0
    } else {
        10 * number(digits.drop_last()) + (digits.last() as nat - '0' as nat) as nat
    }
}

/// A number in decimal is written with digits only, without leading zeros, and reads back as the
/// number.
pub proof fn decimals_read_back(n: nat)
    ensures
        number(decimal(n)) == n,
        decimal(n).len() > 0,
        forall|i: int| 0 <= i < decimal(n).len() ==> '0' <= #[trigger] decimal(n)[i] <= '9',
        n > 0 ==> decimal(n)[0] != '0',
        n == 0 ==> decimal(n).len() == 1,
    decreases n,
{
    let text = decimal(n);
    if n < 10 {
        assert(text.drop_last() =~= Seq::<char>::empty());
        assert(number(text.drop_last()) == 0);
    } else {
        decimals_read_back(n / 10);
        assert(text.drop_last() =~= decimal(n / 10));
    }
}

/// What is done with a request goes by its permit, by the transports that are enabled and by the
/// handshake alone.
pub proof fn requests_are_routed<M, H: Clone, C>(
    data: ServiceData<M, H>,
    permit: Option<OwnedSemaphorePermit>,
    on_session_close: Option<C>,
    head: RequestHead,
    action: CallAction<H, C>,
)
    requires
        served(data, permit, on_session_close, head, action),
    ensures
        action is TooManyRequests <==> permit is None,
        action is WebSocket <==> permit is Some && data.server_cfg@.enable_ws
            && head@.asks_for_upgrade() && head@.fault() is None,
        action is HandshakeFailed <==> permit is Some && data.server_cfg@.enable_ws
            && head@.asks_for_upgrade() && head@.fault() is Some,
        action is Http <==> permit is Some && data.server_cfg@.enable_http
            && !head@.asks_for_upgrade(),
        action is Denied <==> permit is Some && (if head@.asks_for_upgrade() {
            !data.server_cfg@.enable_ws
        } else {
            !data.server_cfg@.enable_http
        }),
{
}

/// A session has the limits, the encryption and the provider of ids that were configured, the id and
/// the guard of its connection, and the listeners that were there. The client is told that its key
/// was accepted.
pub proof fn sessions_are_as_configured<M, H: Clone, C>(
    data: ServiceData<M, H>,
    permit: Option<OwnedSemaphorePermit>,
    on_session_close: Option<C>,
    head: RequestHead,
    action: CallAction<H, C>,
)
    requires
        served(data, permit, on_session_close, head, action),
    ensures
        action matches CallAction::WebSocket {
            response,
            conn,
            session,
            conn_guard,
            message_encryption,
            id_provider,
            on_session_close: closing,
        } ==> {
            &&& session.max_request_body_size == data.server_cfg@.max_request_body_size
            &&& session.max_response_body_size == data.server_cfg@.max_response_body_size
            &&& session.max_subscriptions_per_connection
                == data.server_cfg@.max_subscriptions_per_connection
            &&& session.message_buffer_capacity == data.server_cfg@.message_buffer_capacity
            &&& session.conn_id.0 == data.conn_id
            &&& message_encryption == data.server_cfg@.message_encryption
            &&& id_provider == data.server_cfg@.id_provider
            &&& conn_guard == data.conn_guard
            &&& conn.conn_id == data.conn_id
            &&& cloned(data.stop_handle, conn.stop_handle)
            &&& permit == Some(*conn.conn_permit)
            &&& closing == on_session_close
            &&& response.status == 101
            &&& response.connection@ == ascii("upgrade"@)
            &&& response.upgrade@ == ascii("websocket"@)
            &&& response.accept@ == accept_key(head.key@[0]@)
        },
{
}

/// A request that is answered over HTTP has the limits and the handling of batches that were
/// configured, and the id and the guard of its connection.
pub proof fn http_calls_are_as_configured<M, H: Clone, C>(
    data: ServiceData<M, H>,
    permit: Option<OwnedSemaphorePermit>,
    on_session_close: Option<C>,
    head: RequestHead,
    action: CallAction<H, C>,
)
    requires
        served(data, permit, on_session_close, head, action),
    ensures
        action matches CallAction::Http { conn, call, conn_guard } ==> {
            &&& call.batch_requests_config == data.server_cfg@.batch_requests_config
            &&& call.max_request_body_size == data.server_cfg@.max_request_body_size
            &&& call.max_response_body_size == data.server_cfg@.max_response_body_size
            &&& call.conn_id.0 == data.conn_id
            &&& conn_guard == data.conn_guard
            &&& conn.conn_id == data.conn_id
            &&& cloned(data.stop_handle, conn.stop_handle)
            &&& permit == Some(*conn.conn_permit)
        },
{
}

/// A batch that comes in over HTTP goes to the service where the server was configured to allow
/// batches of its size, and only there.
pub proof fn batches_over_http_go_by_the_configuration<
    D,
    H: Clone,
    L,
    R,
    N,
    C: Fn(&[u8]) -> Option<R>,
    M: Fn(&[u8]) -> Option<N>,
    I: Fn(&[u8]) -> Option<Id>,
>(
    data: ServiceData<D, H>,
    permit: Option<OwnedSemaphorePermit>,
    on_session_close: Option<L>,
    head: RequestHead,
    action: CallAction<H, L>,
    parse_call: C,
    parse_notification: M,
    parse_invalid: I,
    body: Seq<u8>,
    outcome: RpcAction<R, N>,
)
    requires
        served(data, permit, on_session_close, head, action),
        action matches CallAction::Http { call, .. } && rpc_action(
            parse_call,
            parse_notification,
            parse_invalid,
            body,
            false,
            call.batch_requests_config,
            outcome,
        ),
    ensures
        outcome is Batch <==> (json_array_elements(body) matches Some(elements) && match
            data.server_cfg@.batch_requests_config {
            BatchRequestConfig::Disabled => false,
            BatchRequestConfig::Limit(limit) => elements.len() <= limit,
            BatchRequestConfig::Unlimited => true,
        }),
{
}

/// A failed handshake is answered with what is wrong with it.
pub proof fn failed_handshakes_are_explained<M, H: Clone, C>(
    data: ServiceData<M, H>,
    permit: Option<OwnedSemaphorePermit>,
    on_session_close: Option<C>,
    head: RequestHead,
    action: CallAction<H, C>,
)
    requires
        served(data, permit, on_session_close, head, action),
    ensures
        action matches CallAction::HandshakeFailed { body } ==> {
            &&& head.key@.len() == 0 ==> body@ == "Could not upgrade connection: "@
                + "header Sec-WebSocket-Key not found"@
            &&& head.key@.len() > 0 && (head.version@.len() == 0 || head.version@[0]@ != ascii(
                "13"@,
            )) ==> body@ == "Could not upgrade connection: "@
                + "header Sec-WebSocket-Version not found"@
            &&& head.key@.len() > 0 && head.version@.len() > 0 && head.version@[0]@ == ascii("13"@)
                && head.key@[0]@.len() != 24 ==> body@ == "Could not upgrade connection: "@
                + "websocket key mismatch"@
            &&& head.key@.len() > 0 && head.version@.len() > 0 && head.version@[0]@ == ascii("13"@)
                && head.key@[0]@.len() == 24 ==> ("Could not upgrade connection: "@
                + "utf-8 decoding error: "@).is_prefix_of(body@)
        },
{
    if let CallAction::HandshakeFailed { body } = action {
        let fault = head@.fault()->0;
        let text = choose|text: Seq<char>|
            #[trigger] fault.described_by(text) && body@ == "Could not upgrade connection: "@
                + text;
        if fault is NoUtf8 {
            let start = "Could not upgrade connection: "@;
            let prefix = "utf-8 decoding error: "@;
            assert(prefix =~= text.subrange(0, prefix.len() as int));
            assert((start + prefix) =~= body@.subrange(0, (start + prefix).len() as int));
        }
    }
}

/// The handshake succeeds exactly with an upgrade that is asked for, a key of 24 bytes, version 13
/// and extensions that are UTF-8.
pub proof fn complete_handshakes_succeed(head: RequestHead)
    ensures
        head@.fault() is None <==> {
            &&& head@.asks_for_upgrade()
            &&& head.key@.len() > 0
            &&& head.key@[0]@.len() == 24
            &&& head.version@.len() > 0
            &&& head.version@[0]@ == ascii("13"@)
            &&& forall|i: int|
                0 <= i < head.extensions@.len() ==> vstd::utf8::valid_utf8(
                    (#[trigger] head.extensions@[i])@,
                )
        },
{
    assert forall|i: int| 0 <= i < head.extensions@.len() implies (#[trigger] head.extensions@[i])@
        == head@.extensions[i] by {
    }
}

/// A header that holds the wanted text, alone or after a comma, lists it, whatever else the request
/// holds.
pub proof fn headers_list_their_entries(
    values: Seq<Seq<u8>>,
    i: int,
    before: Seq<u8>,
    wanted: Seq<char>,
)
    requires
        0 <= i < values.len(),
        values[i] == ascii(wanted) || values[i] == before + seq![44u8] + ascii(wanted),
    ensures
        lists(values, wanted),
{
    let value = values[i];
    let from = value.len() - wanted.len();
    assert(value.subrange(from, value.len() as int) =~= ascii(wanted));
    assert(entry_starts(value, from, from));
    assert(entry_ends(value, value.len() as int, value.len() as int));
    assert(list_entry(value, from, value.len() as int));
}

/// The wanted text stands in the value from the position on, but for the case of its letters.
pub open spec fn occurs(value: Seq<u8>, from: int, wanted: Seq<char>) -> bool {
    &&& 0 <= from <= value.len() - wanted.len()
    &&& forall|k: int| #![trigger wanted[k]]
        0 <= k < wanted.len() ==> {
            let (found, letter) = (value[from + k], wanted[k] as u8);
            found == letter || found == letter + 32 || found + 32 == letter
        }
}

/// A header lists nothing that does not occur in it, and one without values lists nothing.
pub proof fn headers_list_nothing_else(values: Seq<Seq<u8>>, wanted: Seq<char>)
    requires
        lists(values, wanted),
    ensures
        exists|i: int, from: int|
            0 <= i < values.len() && #[trigger] occurs(values[i], from, wanted),
{
    let (i, from, to) = choose|i: int, from: int, to: int|
        0 <= i < values.len() && #[trigger] list_entry(values[i], from, to)
            && crate::handshake::same_ignoring_case(
            values[i].subrange(from, to),
            ascii(wanted),
        );
    assert(to - from == wanted.len());
    assert forall|k: int| #![trigger wanted[k]] 0 <= k < wanted.len() implies {
        let (found, letter) = (values[i][from + k], wanted[k] as u8);
        found == letter || found == letter + 32 || found + 32 == letter
    } by {
        assert(values[i].subrange(from, to)[k] == values[i][from + k]);
        assert(ascii(wanted)[k] == wanted[k] as u8);
    }
    assert(occurs(values[i], from, wanted));
}

/// The text of a notification is a JSON object with three members: the version of the protocol, the
/// method as a JSON string, and the parameters exactly as the serializer wrote them, whatever they
/// are. If the serializer fails there is no text.
pub proof fn notifications_carry_their_parameters<T, F: Fn(&T) -> Result<String, serde_json::Error>>(
    notification: NotificationView<T>,
    serialize: F,
    outcome: Result<Seq<char>, serde_json::Error>,
)
    requires
        notification.jsonrpc == "2.0"@,
        written(notification, serialize, outcome),
    ensures
        outcome matches Ok(text) ==> exists|params: String|
            {
                let head = "{\"jsonrpc\":\"2.0\",\"method\":"@ + json_string(notification.method)
                    + ",\"params\":"@;
                &&& #[trigger] serialize.ensures((&notification.params,), Ok(params))
                &&& text.len() == head.len() + params@.len() + 1
                &&& text.subrange(0, head.len() as int) == head
                &&& text.subrange(head.len() as int, text.len() - 1) == params@
                &&& text.last() == '}'
            },
        outcome matches Err(err) ==> serialize.ensures((&notification.params,), Err(err)),
{
    if let Ok(text) = outcome {
        let params = choose|params: String|
            #[trigger] serialize.ensures((&notification.params,), Ok(params)) && text
                == notification_json(notification.jsonrpc, notification.method, params@);
        let head = "{\"jsonrpc\":\"2.0\",\"method\":"@ + json_string(notification.method)
            + ",\"params\":"@;
        reveal_strlit("{\"jsonrpc\":\"2.0\",\"method\":");
        reveal_strlit("{\"jsonrpc\":");
        reveal_strlit(",\"method\":");
        reveal_strlit("}");
        reveal_strlit("2.0");
        plain_text_is_only_quoted("2.0"@);
        assert("{\"jsonrpc\":"@ + json_string("2.0"@) + ",\"method\":"@
            =~= "{\"jsonrpc\":\"2.0\",\"method\":"@);
        assert(text =~= head + params@ + "}"@);
        assert(text.subrange(0, head.len() as int) =~= head);
        assert(text.subrange(head.len() as int, text.len() - 1) =~= params@);
    }
}

proof fn lemma_json_chars(text: Seq<char>)
    requires
        text.len() > 0,
    ensures
        text.flat_map(|c: char| json_char(c)) == json_char(text[0]) + text.drop_first().flat_map(
            |c: char| json_char(c),
        ),
{
    let f = |c: char| json_char(c);
    assert(text.map_values(f).drop_first() =~= text.drop_first().map_values(f));
}

/// A text without quotes, backslashes and control characters is a JSON string once it is quoted.
pub proof fn plain_text_is_only_quoted(text: Seq<char>)
    requires
        forall|i: int|
            0 <= i < text.len() ==> (#[trigger] text[i]) as nat >= 32 && text[i] != '"' && text[i]
                != '\\',
    ensures
        json_string(text) == seq!['"'] + text + seq!['"'],
    decreases text.len(),
{
    if text.len() == 0 {
        assert(text.flat_map(|c: char| json_char(c)) =~= text);
    } else {
        let rest = text.drop_first();
        assert forall|i: int| 0 <= i < rest.len() implies (#[trigger] rest[i]) as nat >= 32
            && rest[i] != '"' && rest[i] != '\\' by {
            assert(rest[i] == text[i + 1]);
        }
        plain_text_is_only_quoted(rest);
        lemma_json_chars(text);
        let inner = rest.flat_map(|c: char| json_char(c));
        assert(json_string(rest).subrange(1, json_string(rest).len() - 1) =~= inner);
        assert((seq!['"'] + rest + seq!['"']).subrange(1, 1 + rest.len() as int) =~= rest);
        assert(text =~= seq![text[0]] + rest);
    }
}

/// The value of a hexadecimal digit in lower case.
pub open spec fn hex_value(c: char) -> nat {
    if '0' <= c <= '9' {
        (c as nat - '0' as nat) as nat
    } else {
        (c as nat - 'a' as nat + 10) as nat
    }
}

/// The character that the next characters of a JSON string stand for, and how many they are.
pub open spec fn read_json_char(text: Seq<char>) -> (nat, nat) {
    if text[0] != '\\' {
        (text[0] as nat, 1)
    } else if text[1] == 'b' {
        (8, 2)
    } else if text[1] == 't' {
        (9, 2)
    } else if text[1] == 'n' {
        (10, 2)
    } else if text[1] == 'f' {
        (12, 2)
    } else if text[1] == 'r' {
        (13, 2)
    } else if text[1] == 'u' {
        (
            4096 * hex_value(text[2]) + 256 * hex_value(text[3]) + 16 * hex_value(text[4])
                + hex_value(text[5]),
            6,
        )
    } else {
        (text[1] as nat, 2)
    }
}

/// The characters of a JSON string from here to its closing quote, and what follows it.
pub open spec fn read_json_string(text: Seq<char>) -> (Seq<nat>, Seq<char>)
    decreases text.len(),
{
    if text.len() == 0 {
        (seq![], seq![])
    } else if text[0] == '"' {
        (seq![], text.skip(1))
    } else {
        let (c, n) = read_json_char(text);
        if n > text.len() {
            (seq![], seq![])
        } else {
            let (rest, after) = read_json_string(text.skip(n as int));
            (seq![c] + rest, after)
        }
    }
}

proof fn lemma_json_char_reads_back(c: char, rest: Seq<char>)
    ensures
        ({
            let text = json_char(c) + rest;
            &&& read_json_char(text) == (c as nat, json_char(c).len())
            &&& text[0] != '"'
            &&& text.skip(json_char(c).len() as int) == rest
        }),
{
    let text = json_char(c) + rest;
    assert(text.skip(json_char(c).len() as int) =~= rest);
    let written = json_char(c);
    assert forall|i: int| 0 <= i < written.len() implies text[i] == written[i] by {
    }
}

/// A JSON string reads back as the text that it was written for, and ends where it was closed: what
/// follows is left as it is.
pub proof fn json_strings_read_back(text: Seq<char>, rest: Seq<char>)
    ensures
        ({
            let written = json_string(text) + rest;
            &&& written[0] == '"'
            &&& read_json_string(written.skip(1)) == (
                Seq::new(text.len(), |i: int| text[i] as nat),
                rest,
            )
        }),
    decreases text.len(),
{
    let f = |c: char| json_char(c);
    let inner = text.flat_map(f);
    let written = json_string(text) + rest;
    assert(written.skip(1) =~= inner + seq!['"'] + rest);
    let body = inner + seq!['"'] + rest;
    if text.len() == 0 {
        assert(inner =~= Seq::<char>::empty());
        assert(body[0] == '"');
        assert(body.skip(1) =~= rest);
        assert(Seq::new(text.len(), |i: int| text[i] as nat) =~= seq![]);
    } else {
        let tail = text.drop_first();
        json_strings_read_back(tail, rest);
        lemma_json_chars(text);
        let tail_inner = tail.flat_map(f);
        let tail_body = tail_inner + seq!['"'] + rest;
        assert((json_string(tail) + rest).skip(1) =~= tail_body);
        assert(body =~= json_char(text[0]) + tail_body);
        lemma_json_char_reads_back(text[0], tail_body);
        assert(Seq::new(text.len(), |i: int| text[i] as nat) =~= seq![text[0] as nat] + Seq::new(
            tail.len(),
            |i: int| tail[i] as nat,
        ));
    }
}

/// A notification that a sink took is delivered; one that it did not take met a closed connection.
pub proof fn outcomes_tell_whether_it_was_delivered(sent: bool)
    ensures
        delivery(sent) is Ok <==> sent,
        !sent ==> delivery(sent) == Err::<(), _>(NotificationError::ConnectionClosed),
{
}

/// On its way to a list of connections, a notification is handed to the sink of the next connection
/// in the list that has no result yet and is active.
pub proof fn sinks_are_handed_out_in_order<S>(sending: MultiSendView<S>)
    ensures
        sending.waiting() <==> {
            &&& sending.results.len() < sending.conn_ids.len()
            &&& sending.connections.contains_key(sending.conn_ids[sending.results.len() as int].0)
        },
        sending.next_sink() == sending.connections[sending.conn_ids[sending.results.len() as int].0],
        sending.done() <==> sending.results.len() == sending.conn_ids.len(),
{
}

/// A broadcast goes to each active connection once, through its sink, and to no one else.
pub proof fn broadcasts_go_to_everyone_once<S>(
    connections: Map<usize, S>,
    targets: Seq<(ConnectionId, S)>,
    id: usize,
)
    requires
        targets_all(targets, connections),
    ensures
        connections.contains_key(id) <==> exists|i: int|
            0 <= i < targets.len() && (#[trigger] targets[i]).0 == ConnectionId(id),
        forall|i: int|
            0 <= i < targets.len() && (#[trigger] targets[i]).0 == ConnectionId(id)
                ==> targets[i].1 == connections[id],
        forall|i: int, j: int|
            0 <= i < targets.len() && 0 <= j < targets.len() && (#[trigger] targets[i]).0 == (
            #[trigger] targets[j]).0 ==> i == j,
{
    if connections.contains_key(id) {
        assert(crate::connection_manager::targeted(targets, id));
        let i = choose|i: int| 0 <= i < targets.len() && (#[trigger] targets[i]).0.0 == id;
        assert(targets[i].0 == ConnectionId(id));
    }
}

/// A filtered broadcast goes once to each active connection that matches, through its sink, and to
/// no one else.
pub proof fn filtered_broadcasts_go_to_those_that_match<S, P: Fn(ConnectionId) -> bool>(
    connections: Map<usize, S>,
    targets: Seq<(ConnectionId, S)>,
    filter: P,
    matching: spec_fn(ConnectionId) -> bool,
    id: usize,
)
    requires
        forall|id: ConnectionId, r: bool| #[trigger] filter.ensures((id,), r) ==> r == matching(id),
        targets_matching(targets, connections, filter),
    ensures
        connections.contains_key(id) && matching(ConnectionId(id)) <==> exists|i: int|
            0 <= i < targets.len() && (#[trigger] targets[i]).0 == ConnectionId(id),
        forall|i: int|
            0 <= i < targets.len() && (#[trigger] targets[i]).0 == ConnectionId(id)
                ==> targets[i].1 == connections[id],
        forall|i: int, j: int|
            0 <= i < targets.len() && 0 <= j < targets.len() && (#[trigger] targets[i]).0 == (
            #[trigger] targets[j]).0 ==> i == j,
{
    if connections.contains_key(id) && matching(ConnectionId(id)) {
        assert(crate::connection_manager::targeted(targets, id));
        let i = choose|i: int| 0 <= i < targets.len() && (#[trigger] targets[i]).0.0 == id;
        assert(targets[i].0 == ConnectionId(id));
    }
    if exists|i: int| 0 <= i < targets.len() && (#[trigger] targets[i]).0 == ConnectionId(id) {
        let i = choose|i: int|
            0 <= i < targets.len() && (#[trigger] targets[i]).0 == ConnectionId(id);
        assert(filter.ensures((targets[i].0,), true));
    }
}

/// The number of connections that were reached is the number of sinks that took the notification.
pub proof fn reached_are_those_whose_sink_took_it(outcomes: Seq<bool>)
    ensures
        successes(outcomes) == outcomes.filter(|sent: bool| sent).len(),
    decreases outcomes.len(),
{
    reveal(Seq::filter);
    if outcomes.len() > 0 {
        reached_are_those_whose_sink_took_it(outcomes.drop_last());
    }
}

/// The connections that were not reached are listed once each.
pub proof fn failed_are_listed_once<S>(
    connections: Map<usize, S>,
    targets: Seq<(ConnectionId, S)>,
    outcomes: Seq<bool>,
)
    requires
        targets_sound(targets, connections),
        outcomes.len() <= targets.len(),
    ensures
        failures(targets, outcomes).no_duplicates(),
    decreases outcomes.len(),
{
    if outcomes.len() > 0 {
        let rest = outcomes.drop_last();
        failed_are_listed_once(connections, targets, rest);
        let last = targets[outcomes.len() - 1].0;
        failed_are_those_not_reached(targets, rest, last);
        assert(!failures(targets, rest).contains(last));
    }
}

/// The numbers of a list of connections are those of its members, in order.
pub proof fn numbers_of_connections(connections: Seq<ConnectionId>, id: usize)
    ensures
        ids(connections).len() == connections.len(),
        forall|i: int| 0 <= i < connections.len() ==> #[trigger] ids(connections)[i]
            == connections[i].0,
        ids(connections).to_set().contains(id) <==> connections.contains(ConnectionId(id)),
{
    if connections.contains(ConnectionId(id)) {
        let i = choose|i: int| 0 <= i < connections.len() && connections[i] == ConnectionId(id);
        assert(ids(connections)[i] == id);
    }
    if ids(connections).contains(id) {
        let i = choose|i: int| 0 <= i < ids(connections).len() && ids(connections)[i] == id;
        assert(connections[i] == ConnectionId(id));
    }
}

/// An error says what went wrong, and names the connection or the cause.
pub proof fn errors_name_the_connection_or_the_cause(error: NotificationError, cause: Seq<char>)
    ensures
        error matches NotificationError::ConnectionNotFound(conn_id) ==> error.described(cause)
            == "Connection ConnectionId("@ + decimal(conn_id.0 as nat) + ") not found"@,
        error is ConnectionClosed ==> error.described(cause) == "Connection closed"@,
        error is SerializationError ==> error.described(cause) == "Serialization error: "@ + cause,
        error is SendError ==> error.described(cause) == "Send error"@,
{
}

/// The defaults that the documentation of the setters names.
pub proof fn defaults_are_as_documented()
    ensures
        default_settings().max_request_body_size == 10 * 1024 * 1024,
        default_settings().max_response_body_size == 10 * 1024 * 1024,
        default_settings().max_connections == 100,
        default_settings().max_subscriptions_per_connection == 1024,
        default_settings().batch_requests_config == BatchRequestConfig::Unlimited,
        default_settings().tokio_runtime is None,
        default_settings().enable_http,
        default_settings().enable_ws,
        default_settings().message_buffer_capacity == 1024,
        default_settings().ping_config is None,
        default_settings().id_provider is None,
        default_settings().tcp_no_delay,
        default_settings().message_encryption is None,
        default_settings().message_crypto_error_policy == MessageCryptoErrorPolicy::SendError,
        default_ping().ping_interval == duration_of_secs(30),
        default_ping().inactive_limit == duration_of_secs(40),
        default_ping().max_failures == 1,
{
}

/// A valid configuration lets messages be buffered and enables a transport.
pub proof fn valid_settings_can_be_served(settings: Settings)
    ensures
        settings.valid() <==> settings.message_buffer_capacity > 0 && (settings.enable_http
            || settings.enable_ws),
{
}

/// A clone of a configuration has the same settings, and a clone of its runtime.
pub proof fn clones_have_the_same_settings(settings: Settings, other: Settings)
    requires
        settings.cloned_as(other),
    ensures
        other.max_request_body_size == settings.max_request_body_size,
        other.max_response_body_size == settings.max_response_body_size,
        other.max_connections == settings.max_connections,
        other.max_subscriptions_per_connection == settings.max_subscriptions_per_connection,
        other.batch_requests_config == settings.batch_requests_config,
        other.enable_http == settings.enable_http,
        other.enable_ws == settings.enable_ws,
        other.message_buffer_capacity == settings.message_buffer_capacity,
        other.ping_config == settings.ping_config,
        other.id_provider == settings.id_provider,
        other.tcp_no_delay == settings.tcp_no_delay,
        other.message_encryption == settings.message_encryption,
        other.message_crypto_error_policy == settings.message_crypto_error_policy,
        other.tokio_runtime is Some <==> settings.tokio_runtime is Some,
        settings.tokio_runtime is Some ==> cloned(
            settings.tokio_runtime->0,
            other.tokio_runtime->0,
        ),
{
}

/// A clone of a service uses the same guard under the same connection id, with the same settings.
pub proof fn clones_of_services_share_the_guard<L: Clone, M: Clone, H: Clone, C: Clone>(
    service: TowerServiceNoHttp<L, M, H, C>,
    other: TowerServiceNoHttp<L, M, H, C>,
)
    requires
        service.cloned_as(other),
    ensures
        other.inner.conn_guard == service.inner.conn_guard,
        other.inner.conn_id == service.inner.conn_id,
        service.inner.server_cfg@.cloned_as(other.inner.server_cfg@),
        cloned(service.inner.methods, other.inner.methods),
        cloned(service.inner.stop_handle, other.inner.stop_handle),
        other.on_session_close is Some <==> service.on_session_close is Some,
        service.on_session_close is Some ==> cloned(
            service.on_session_close->0,
            other.on_session_close->0,
        ),
{
}

/// What is printed of a configuration are its settings; of the encryption only whether there is one,
/// and of the provider of ids nothing.
pub proof fn printed_settings_are_those_configured(
    shown: summary::ServerConfig<'_>,
    shown_builder: summary::ServerConfigBuilder<'_>,
    settings: Settings,
)
    requires
        shown.shows(settings),
        shown_builder.shows(settings),
    ensures
        settings.max_request_body_size == shown.max_request_body_size
            == shown_builder.max_request_body_size,
        settings.max_response_body_size == shown.max_response_body_size
            == shown_builder.max_response_body_size,
        settings.max_connections == shown.max_connections == shown_builder.max_connections,
        settings.max_subscriptions_per_connection == shown.max_subscriptions_per_connection
            == shown_builder.max_subscriptions_per_connection,
        shown.batch_requests_config == settings.batch_requests_config,
        shown_builder.batch_requests_config == settings.batch_requests_config,
        *shown.tokio_runtime == settings.tokio_runtime,
        *shown_builder.tokio_runtime == settings.tokio_runtime,
        shown.enable_http == settings.enable_http,
        shown_builder.enable_http == settings.enable_http,
        shown.enable_ws == settings.enable_ws,
        shown_builder.enable_ws == settings.enable_ws,
        settings.message_buffer_capacity == shown.message_buffer_capacity
            == shown_builder.message_buffer_capacity,
        shown.ping_config == settings.ping_config,
        shown_builder.ping_config == settings.ping_config,
        shown.id_provider@ == "Arc<dyn IdProvider>"@,
        shown_builder.id_provider@ == "Arc<dyn IdProvider>"@,
        shown.tcp_no_delay == settings.tcp_no_delay,
        shown_builder.tcp_no_delay == settings.tcp_no_delay,
        shown.message_encryption <==> settings.message_encryption is Some,
        shown_builder.message_encryption <==> settings.message_encryption is Some,
{
}

/// Waiting for a connection ends with the connection that was accepted, with the failure to accept
/// one, or with the stop of the server; what waits for the stop is handed back unless it came.
pub proof fn waiting_ends_with_what_came_first<T, A, E, S>(event: AcceptEvent<T, A, E, S>)
    ensures
        event is Stopped <==> accept_outcome(event) is Shutdown,
        event matches AcceptEvent::Accepted(res, stop) ==> {
            &&& res matches Ok((socket, remote_addr)) ==> accept_outcome(event)
                == AcceptConnection::<T, A, E, S>::Established { socket, remote_addr, stop }
            &&& res matches Err(e) ==> accept_outcome(event) == AcceptConnection::<
                T,
                A,
                E,
                S,
            >::Failed((e, stop))
        },
{
}

/// A server starts by accepting connections. A connection that is established is counted, a failure
/// changes nothing, and the stop ends the accepting.
pub proof fn servers_count_their_connections<T, A, E, S>(
    server: AcceptLoopView,
    outcome: AcceptConnection<T, A, E, S>,
)
    ensures
        AcceptLoopView::initial().phase == ServerPhase::Accepting,
        AcceptLoopView::initial().established == 0,
        server.after(outcome).established == server.established + if outcome is Established {
            1int
        } else {
            0int
        },
        outcome is Shutdown ==> server.after(outcome).phase == ServerPhase::Draining,
        !(outcome is Shutdown) ==> server.after(outcome).phase == server.phase,
{
}

/// Ids are given out in turn and start again at zero after the largest.
pub proof fn ids_are_given_out_in_turn(n: nat)
    ensures
        id_of(0) == 0,
        id_of(n) < 0x1_0000_0000,
        id_of(n + 1) == if id_of(n) == u32::MAX {
            0
        } else {
            id_of(n) + 1
        },
{
}

/// A service for a connection has what the connection came with.
pub proof fn connections_are_served_with_their_parameters<L, M, H, C>(
    params: ProcessConnection<'_, L, M, H>,
    service: TowerServiceNoHttp<L, M, H, C>,
)
    requires
        params.yields(service),
    ensures
        service.inner.conn_id == params.conn_id,
        service.inner.conn_guard == *params.conn_guard,
        service.inner.server_cfg == params.server_cfg,
        service.inner.methods == params.methods,
        service.inner.stop_handle == params.stop_handle,
        service.rpc_middleware == params.rpc_middleware,
        service.on_session_close is None,
        service.attempts@ == 0,
{
}

/// A service that is built has what its builder was configured with.
pub proof fn services_are_built_as_configured<R, T, M, H, C>(
    builder: TowerServiceBuilder<R, T>,
    methods: M,
    stop_handle: H,
    conn_id: u32,
    service: TowerService<R, T, M, H, C>,
)
    requires
        builder.builds(methods, stop_handle, conn_id, service),
    ensures
        service.http_middleware == builder.http_middleware,
        service.rpc_middleware.rpc_middleware == builder.rpc_middleware,
        service.rpc_middleware.on_session_close is None,
        service.rpc_middleware.attempts@ == 0,
        service.rpc_middleware.inner.conn_id == conn_id,
        service.rpc_middleware.inner.conn_guard == builder.conn_guard,
        service.rpc_middleware.inner.server_cfg == builder.server_cfg,
        service.rpc_middleware.inner.methods == methods,
        service.rpc_middleware.inner.stop_handle == stop_handle,
{
}

/// The ids of a builder start with the first one and follow each other, with zero after the largest.
pub proof fn ids_of_builders_follow_each_other(first: u32, given: u32)
    ensures
        nth_id(first, 0) == first,
        given < u32::MAX ==> nth_id(first, (given + 1) as u32) == if nth_id(first, given)
            == u32::MAX {
            0
        } else {
            nth_id(first, given) + 1
        },
{
}

/// A connection that has not ended is told to shut down when the server is stopped while it is
/// served, goes on being served until it ends, and is complete once it has ended.
pub proof fn stopping_lets_connections_end(phase: ConnectionPhase, event: ConnectionEvent)
    ensures
        action_on(phase, event) == ConnectionAction::Complete <==> next_phase(phase, event)
            == ConnectionPhase::Finished,
        next_phase(phase, event) == ConnectionPhase::Finished <==> phase
            == ConnectionPhase::Finished || event == ConnectionEvent::Ended,
        action_on(phase, event) == ConnectionAction::GracefulShutdown <==> phase
            == ConnectionPhase::Serving && event == ConnectionEvent::StopRequested,
        next_phase(phase, event) == ConnectionPhase::ShuttingDown <==> phase
            != ConnectionPhase::Finished && event == ConnectionEvent::StopRequested,
{
}

/// A service decides by its own data, and on a permit that its own guard gave, or none.
pub proof fn services_decide_by_their_own_data<L, M, H: Clone, C>(
    service: TowerServiceNoHttp<L, M, H, C>,
    head: RequestHead,
    action: CallAction<H, C>,
)
    requires
        service.decides(head, action),
    ensures
        action is TooManyRequests ==> service.inner.conn_guard.answers(None),
        !(action is TooManyRequests) ==> exists|permit: OwnedSemaphorePermit| #[trigger]
            service.inner.conn_guard.answers(Some(permit)),
        action is WebSocket ==> service.inner.server_cfg@.enable_ws && head@.asks_for_upgrade(),
        action is Http ==> service.inner.server_cfg@.enable_http && !head@.asks_for_upgrade(),
        action matches CallAction::WebSocket {
            conn,
            session,
            conn_guard,
            message_encryption,
            id_provider,
            on_session_close,
            ..
        } ==> {
            &&& service.inner.conn_guard.answers(Some(*conn.conn_permit))
            &&& conn_guard == service.inner.conn_guard
            &&& session.conn_id.0 == service.inner.conn_id
            &&& session.max_request_body_size == service.inner.server_cfg@.max_request_body_size
            &&& session.max_response_body_size == service.inner.server_cfg@.max_response_body_size
            &&& message_encryption == service.inner.server_cfg@.message_encryption
            &&& id_provider == service.inner.server_cfg@.id_provider
            &&& on_session_close == service.on_session_close
        },
        action matches CallAction::Http { conn, call, conn_guard } ==> {
            &&& service.inner.conn_guard.answers(Some(*conn.conn_permit))
            &&& conn_guard == service.inner.conn_guard
            &&& call.conn_id.0 == service.inner.conn_id
            &&& call.batch_requests_config == service.inner.server_cfg@.batch_requests_config
        },
{
    let permit = choose|permit: Option<OwnedSemaphorePermit>|
        service.inner.conn_guard.answers(permit) && #[trigger] served(
            service.inner,
            permit,
            service.on_session_close,
            head,
            action,
        );
    if !(action is TooManyRequests) {
        assert(service.inner.conn_guard.answers(Some(permit->0)));
    }
}

/// Someone is told that a session has been closed from the first time on that it is listened to: who
/// was told before, and else who is made then. The listener listens to them.
pub proof fn listening_makes_a_notifier_once<C, W, F: FnOnce() -> C, G: Fn(&C) -> W>(
    before: Option<C>,
    create: F,
    after: Option<C>,
    listen: G,
    listener: W,
)
    requires
        listens(before, create, after),
        hears(after, listen, listener),
    ensures
        before is Some ==> after == before,
        before is None ==> (after matches Some(notifier) && create.ensures((), notifier)),
        after matches Some(notifier) && listen.ensures((&notifier,), listener),
{
}

/// Texts, header values and sinks keep their number and their order.
pub proof fn lists_keep_their_order<S>(
    elements: Seq<Vec<u8>>,
    targets: Seq<(ConnectionId, &S)>,
    i: int,
)
    ensures
        texts(elements).len() == elements.len(),
        bytes_of(elements).len() == elements.len(),
        sinks(targets).len() == targets.len(),
        0 <= i < elements.len() ==> texts(elements)[i] == elements[i]@ && bytes_of(elements)[i]
            == elements[i]@,
        0 <= i < targets.len() ==> sinks(targets)[i] == (targets[i].0, *targets[i].1),
{
}

/// A request asks for an upgrade by two of its headers, read in order as they came.
pub proof fn upgrades_are_asked_for_by_two_headers(head: RequestHead)
    ensures
        head@.asks_for_upgrade() <==> {
            &&& lists(Seq::new(head.connection@.len(), |i: int| head.connection@[i]@), "upgrade"@)
            &&& lists(Seq::new(head.upgrade@.len(), |i: int| head.upgrade@[i]@), "websocket"@)
        },
{
    assert(head@.connection =~= Seq::new(
        head.connection@.len(),
        |i: int| head.connection@[i]@,
    ));
    assert(head@.upgrade =~= Seq::new(head.upgrade@.len(), |i: int| head.upgrade@[i]@));
}

/// A header value may hold every byte but control characters, and tabs.
pub proof fn header_values_hold_no_control_characters(value: Seq<u8>)
    ensures
        header_value(value) <==> forall|i: int|
            0 <= i < value.len() ==> (#[trigger] value[i]) == 9 || (value[i] >= 32 && value[i]
                != 127),
{
    if forall|i: int|
        0 <= i < value.len() ==> (#[trigger] value[i]) == 9 || (value[i] >= 32 && value[i] != 127) {
        assert forall|i: int| 0 <= i < value.len() implies crate::handshake::header_byte(
            #[trigger] value[i],
        ) by {
        }
    }
}

} // verus!
