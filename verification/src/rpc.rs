//! Dispatch of JSON-RPC messages.
//!
//! The dispatcher decides what is to be done with the body of a message: which service call it
//! stands for, or which error it is answered with. How a single call, notification or invalid
//! request is read from its JSON text is given to it as three parsers.

use crate::config::BatchRequestConfig;
use crate::types::{
    batches_not_supported_error, error_of_code, reject_too_big_batch_request, too_big_batch_error,
    ErrorCode, ErrorObject, Id,
};
use vstd::prelude::*;

verus! {

/// One valid entry of a batch.
#[derive(Debug, Clone)]
pub enum BatchEntry<R, N> {
    /// Method call.
    Call(R),
    /// Notification.
    Notification(N),
}

/// One invalid entry of a batch: the id and the error that it is answered with.
#[derive(Debug, Clone)]
pub struct BatchEntryErr {
    /// The id that could be read, or null.
    pub id: Id,
    /// The error.
    pub error: ErrorObject,
}

impl BatchEntryErr {
    /// Create a new entry.
    pub fn new(id: Id, error: ErrorObject) -> (r: Self)
        ensures
            r == (BatchEntryErr { id, error }),
    {
        BatchEntryErr { id, error }
    }
}

/// An error response.
#[derive(Debug, Clone)]
pub struct ErrorResponse {
    /// The id that could be read, or null.
    pub id: Id,
    /// The error.
    pub error: ErrorObject,
}

/// What is to be done with a message.
#[derive(Debug, Clone)]
pub enum RpcAction<R, N> {
    /// Call the service with a request.
    Call(R),
    /// Hand a notification to the service.
    Notification(N),
    /// Hand a batch to the service.
    Batch(Vec<Result<BatchEntry<R, N>, BatchEntryErr>>),
    /// Answer with an error; the service is not involved.
    Error(ErrorResponse),
}

/// Names the JSON texts of the elements that `serde_json::from_slice` reads from the text of a
/// JSON array, or `None` where it reads no array.
pub uninterp spec fn json_array_elements(body: Seq<u8>) -> Option<Seq<Seq<u8>>>;

/// The bytes of each text.
pub open spec fn texts(v: Seq<Vec<u8>>) -> Seq<Seq<u8>> {
    Seq::new(v.len(), |i: int| v[i]@)
}

/// `serde_json::from_slice`, asked for the raw values of an array, depends on the bytes alone:
/// the elements come out as the JSON texts that they were written with, in order.
#[verifier::external_body]
fn split_json_array(body: &[u8]) -> (r: Option<Vec<Vec<u8>>>)
    ensures
        match r {
            Some(elements) => json_array_elements(body@) == Some(texts(elements@)),
            None => json_array_elements(body@) is None,
        },
{
    let calls: Option<Vec<&serde_json::value::RawValue>> = serde_json::from_slice(body).ok();
    calls.map(|calls| calls.into_iter().map(|call| call.get().as_bytes().to_vec()).collect())
}

/// `out` is something that the parser returns for the text.
pub open spec fn parses<O, F: Fn(&[u8]) -> Option<O>>(
    parser: F,
    text: Seq<u8>,
    out: Option<O>,
) -> bool {
    exists|s: &[u8]| s@ == text && #[trigger] parser.ensures((s,), out)
}

/// The parser accepts every text.
pub open spec fn total<O, F: Fn(&[u8]) -> Option<O>>(parser: F) -> bool {
    forall|s: &[u8]| #[trigger] parser.requires((s,))
}

/// `id` is the id that can be read from a text that is neither call nor notification, or null.
pub open spec fn invalid_id<I: Fn(&[u8]) -> Option<Id>>(
    parse_invalid: I,
    text: Seq<u8>,
    id: Id,
) -> bool {
    ||| parses(parse_invalid, text, Some(id))
    ||| id is Null && parses(parse_invalid, text, None::<Id>)
}

/// `entry` is what one element of a batch stands for: a call where it can be read as one, else a
/// notification where it can be read as one, else an invalid request.
pub open spec fn entry_of<
    R,
    N,
    C: Fn(&[u8]) -> Option<R>,
    M: Fn(&[u8]) -> Option<N>,
    I: Fn(&[u8]) -> Option<Id>,
>(
    parse_call: C,
    parse_notification: M,
    parse_invalid: I,
    text: Seq<u8>,
    entry: Result<BatchEntry<R, N>, BatchEntryErr>,
) -> bool {
    match entry {
        Ok(BatchEntry::Call(request)) => parses(parse_call, text, Some(request)),
        Ok(BatchEntry::Notification(notification)) => {
            &&& parses(parse_call, text, None::<R>)
            &&& parses(parse_notification, text, Some(notification))
        },
        Err(err) => {
            &&& parses(parse_call, text, None::<R>)
            &&& parses(parse_notification, text, None::<N>)
            &&& invalid_id(parse_invalid, text, err.id)
            &&& err.error@ == error_of_code(ErrorCode::InvalidRequest)
        },
    }
}

/// `action` is what a single message stands for: a call where it can be read as one, else a
/// notification where it can be read as one, else an error: an invalid request with the id that
/// could be read, or a parse error.
pub open spec fn single_action<
    R,
    N,
    C: Fn(&[u8]) -> Option<R>,
    M: Fn(&[u8]) -> Option<N>,
    I: Fn(&[u8]) -> Option<Id>,
>(
    parse_call: C,
    parse_notification: M,
    parse_invalid: I,
    body: Seq<u8>,
    action: RpcAction<R, N>,
) -> bool {
    match action {
        RpcAction::Call(request) => parses(parse_call, body, Some(request)),
        RpcAction::Notification(notification) => {
            &&& parses(parse_call, body, None::<R>)
            &&& parses(parse_notification, body, Some(notification))
        },
        RpcAction::Batch(_) => false,
        RpcAction::Error(response) => {
            &&& parses(parse_call, body, None::<R>)
            &&& parses(parse_notification, body, None::<N>)
            &&& prepared_error(parse_invalid, body, response.id, response.error@)
        },
    }
}

/// How an unreadable message is answered.
pub open spec fn prepared_error<I: Fn(&[u8]) -> Option<Id>>(
    parse_invalid: I,
    body: Seq<u8>,
    id: Id,
    error: crate::types::ErrorObjectView,
) -> bool {
    ||| {
        &&& parses(parse_invalid, body, Some(id))
        &&& error == error_of_code(ErrorCode::InvalidRequest)
    }
    ||| {
        &&& parses(parse_invalid, body, None::<Id>)
        &&& id is Null
        &&& error == error_of_code(ErrorCode::ParseError)
    }
}

/// A batch of `len` entries is too large for the limit, where there is one.
pub open spec fn too_large(len: nat, limit: Option<nat>) -> bool {
    limit matches Some(limit) && len > limit
}

/// `action` is what is done with the elements that were read from the body of a batch.
pub open spec fn batch_action<
    R,
    N,
    C: Fn(&[u8]) -> Option<R>,
    M: Fn(&[u8]) -> Option<N>,
    I: Fn(&[u8]) -> Option<Id>,
>(
    parse_call: C,
    parse_notification: M,
    parse_invalid: I,
    elements: Option<Seq<Seq<u8>>>,
    limit: Option<nat>,
    action: RpcAction<R, N>,
) -> bool {
    match elements {
        None => action matches RpcAction::Error(response) && response.id is Null && response.error@
            == error_of_code(ErrorCode::ParseError),
        Some(elements) => if too_large(elements.len(), limit) {
            action matches RpcAction::Error(response) && response.id is Null && response.error@
                == too_big_batch_error(limit->0)
        } else {
            action matches RpcAction::Batch(batch) && batch@.len() == elements.len() && (forall|
                i: int,
            |
                0 <= i < elements.len() ==> entry_of(
                    parse_call,
                    parse_notification,
                    parse_invalid,
                    elements[i],
                    #[trigger] batch@[i],
                ))
        },
    }
}

/// `action` is what is done with the body of a message, which is a single message or a batch.
pub open spec fn rpc_action<
    R,
    N,
    C: Fn(&[u8]) -> Option<R>,
    M: Fn(&[u8]) -> Option<N>,
    I: Fn(&[u8]) -> Option<Id>,
>(
    parse_call: C,
    parse_notification: M,
    parse_invalid: I,
    body: Seq<u8>,
    is_single: bool,
    batch_config: BatchRequestConfig,
    action: RpcAction<R, N>,
) -> bool {
    if is_single {
        single_action(parse_call, parse_notification, parse_invalid, body, action)
    } else {
        match batch_config {
            BatchRequestConfig::Disabled => action matches RpcAction::Error(response)
                && response.id is Null && response.error@ == batches_not_supported_error(),
            BatchRequestConfig::Limit(limit) => batch_action(
                parse_call,
                parse_notification,
                parse_invalid,
                json_array_elements(body),
                Some(limit as nat),
                action,
            ),
            BatchRequestConfig::Unlimited => batch_action(
                parse_call,
                parse_notification,
                parse_invalid,
                json_array_elements(body),
                None,
                action,
            ),
        }
    }
}

/// Figure out if this is a sufficiently complete request that an [`Id`] can be read from, or
/// just plain unparsable garbage.
pub fn prepare_error<I: Fn(&[u8]) -> Option<Id>>(body: &[u8], parse_invalid: &I) -> (r: (
    Id,
    ErrorCode,
))
    requires
        total(*parse_invalid),
    ensures
        prepared_error(*parse_invalid, body@, r.0, error_of_code(r.1)),
{
    match parse_invalid(body) {
        Some(id) => (id, ErrorCode::InvalidRequest),
        None => (Id::Null, ErrorCode::ParseError),
    }
}

/// Reads one element of a batch.
fn batch_entry<
    R,
    N,
    C: Fn(&[u8]) -> Option<R>,
    M: Fn(&[u8]) -> Option<N>,
    I: Fn(&[u8]) -> Option<Id>,
>(text: &[u8], parse_call: &C, parse_notification: &M, parse_invalid: &I) -> (r: Result<
    BatchEntry<R, N>,
    BatchEntryErr,
>)
    requires
        total(*parse_call),
        total(*parse_notification),
        total(*parse_invalid),
    ensures
        entry_of(*parse_call, *parse_notification, *parse_invalid, text@, r),
{
    if let Some(request) = parse_call(text) {
        Ok(BatchEntry::Call(request))
    } else if let Some(notification) = parse_notification(text) {
        Ok(BatchEntry::Notification(notification))
    } else {
        let id = match parse_invalid(text) {
            Some(id) => id,
            None => Id::Null,
        };
        Err(BatchEntryErr::new(id, ErrorObject::from_code(ErrorCode::InvalidRequest)))
    }
}

/// Decides on a batch, given the JSON texts of its elements, or `None` where the body is no JSON
/// array.
pub fn handle_batch<
    R,
    N,
    C: Fn(&[u8]) -> Option<R>,
    M: Fn(&[u8]) -> Option<N>,
    I: Fn(&[u8]) -> Option<Id>,
>(
    elements: Option<Vec<Vec<u8>>>,
    max_len: usize,
    parse_call: &C,
    parse_notification: &M,
    parse_invalid: &I,
) -> (r: RpcAction<R, N>)
    requires
        total(*parse_call),
        total(*parse_notification),
        total(*parse_invalid),
    ensures
        batch_action(
            *parse_call,
            *parse_notification,
            *parse_invalid,
            match elements {
                Some(elements) => Some(texts(elements@)),
                None => None,
            },
            Some(max_len as nat),
            r,
        ),
{
    let Some(unchecked_batch) = elements else {
        return RpcAction::Error(
            ErrorResponse { id: Id::Null, error: ErrorObject::from_code(ErrorCode::ParseError) },
        );
    };
    if unchecked_batch.len() > max_len {
        return RpcAction::Error(
            ErrorResponse { id: Id::Null, error: reject_too_big_batch_request(max_len) },
        );
    }
    let mut batch: Vec<Result<BatchEntry<R, N>, BatchEntryErr>> = Vec::with_capacity(
        unchecked_batch.len(),
    );
    for i in 0..unchecked_batch.len()
        invariant
            total(*parse_call),
            total(*parse_notification),
            total(*parse_invalid),
            batch@.len() == i,
            forall|j: int|
                0 <= j < i ==> entry_of(
                    *parse_call,
                    *parse_notification,
                    *parse_invalid,
                    texts(unchecked_batch@)[j],
                    #[trigger] batch@[j],
                ),
    {
        batch.push(
            batch_entry(
                unchecked_batch[i].as_slice(),
                parse_call,
                parse_notification,
                parse_invalid,
            ),
        );
    }
    RpcAction::Batch(batch)
}

/// Decides what is to be done with the body of a message, which is a single message or a batch.
pub fn handle_rpc_call<
    R,
    N,
    C: Fn(&[u8]) -> Option<R>,
    M: Fn(&[u8]) -> Option<N>,
    I: Fn(&[u8]) -> Option<Id>,
>(
    body: &[u8],
    is_single: bool,
    batch_config: BatchRequestConfig,
    parse_call: &C,
    parse_notification: &M,
    parse_invalid: &I,
) -> (r: RpcAction<R, N>)
    requires
        total(*parse_call),
        total(*parse_notification),
        total(*parse_invalid),
    ensures
        rpc_action(
            *parse_call,
            *parse_notification,
            *parse_invalid,
            body@,
            is_single,
            batch_config,
            r,
        ),
{
    if is_single {
        if let Some(request) = parse_call(body) {
            RpcAction::Call(request)
        } else if let Some(notification) = parse_notification(body) {
            RpcAction::Notification(notification)
        } else {
            let (id, code) = prepare_error(body, parse_invalid);
            RpcAction::Error(ErrorResponse { id, error: ErrorObject::from_code(code) })
        }
    } else {
        let max_len: usize = match batch_config {
            BatchRequestConfig::Disabled => {
                return RpcAction::Error(
                    ErrorResponse { id: Id::Null, error: ErrorObject::batches_not_supported() },
                );
            },
            BatchRequestConfig::Limit(limit) => limit as usize,
            BatchRequestConfig::Unlimited => usize::MAX,
        };
        let elements = split_json_array(body);
        proof {
            if elements is Some {
                assert(texts(elements->0@).len() == elements->0.len());
            }
        }
        handle_batch(elements, max_len, parse_call, parse_notification, parse_invalid)
    }
}

} // verus!
